use vstd::prelude::*;
use crate::properties::Properties;
use crate::proxy::{ListenerSet, ProtocolError, released};

verus! {

/// Which way data flows through a port.
#[derive(Clone, Copy, Debug, PartialEq, Eq, Structural)]
pub enum Direction {
    Input,
    Output,
}

/// Decodes the daemon's direction number: 0 for input, 1 for output.
pub fn decode_direction(raw: u32) -> (r: Result<Direction, ProtocolError>)
    ensures
        raw == 0 ==> r == Ok::<Direction, ProtocolError>(Direction::Input),
        raw == 1 ==> r == Ok::<Direction, ProtocolError>(Direction::Output),
        raw > 1 ==> r == Err::<Direction, ProtocolError>(ProtocolError::UnknownDirection(raw)),
{
    if raw == 0 {
        Ok(Direction::Input)
    } else if raw == 1 {
        Ok(Direction::Output)
    } else {
        Err(ProtocolError::UnknownDirection(raw))
    }
}

pub const PORT_CHANGE_ALL: u64 = 3;

/// A port's information as the daemon sends it.
#[derive(Debug)]
pub struct PortInfo {
    pub id: u32,
    pub direction: u32,
    pub change_mask: u64,
    pub props: Option<Properties>,
}

impl PortInfo {
    pub fn id(&self) -> (r: u32)
        ensures
            r == self.id,
    {
        self.id
    }

    /// The decoded direction.
    pub fn direction(&self) -> (r: Result<Direction, ProtocolError>)
        ensures
            self.direction == 0 ==> r == Ok::<Direction, ProtocolError>(Direction::Input),
            self.direction == 1 ==> r == Ok::<Direction, ProtocolError>(Direction::Output),
            self.direction > 1 ==> r == Err::<Direction, ProtocolError>(
                ProtocolError::UnknownDirection(self.direction),
            ),
    {
        decode_direction(self.direction)
    }

    /// The change mask, if it holds only the properties and parameters bits.
    pub fn change_mask(&self) -> (r: Result<u64, ProtocolError>)
        ensures
            r is Ok <==> self.change_mask & !PORT_CHANGE_ALL == 0,
            r matches Ok(m) ==> m == self.change_mask,
            r matches Err(e) ==> e == ProtocolError::UnknownChangeMask(self.change_mask),
    {
        if self.change_mask & !PORT_CHANGE_ALL == 0 {
            Ok(self.change_mask)
        } else {
            Err(ProtocolError::UnknownChangeMask(self.change_mask))
        }
    }

    pub fn props(&self) -> (r: Option<&Properties>)
        ensures
            match r {
                Some(p) => self.props == Some(*p),
                None => self.props is None,
            },
    {
        self.props.as_ref()
    }
}

/// A port that this client follows, with the observers of its updates.
pub struct Port {
    listeners: ListenerSet,
}

impl Port {
    pub closed spec fn spec_listeners(&self) -> ListenerSet {
        self.listeners
    }

    pub fn new() -> (r: Port)
        ensures
            r.spec_listeners().wf(),
            r.spec_listeners().handles() == Seq::<u64>::empty(),
            r.spec_listeners().next_handle() == 0,
    {
        Port { listeners: ListenerSet::new() }
    }

    /// Registers an observer of this port's updates.
    pub fn add_listener_local(&mut self) -> (r: u64)
        requires
            old(self).spec_listeners().wf(),
            old(self).spec_listeners().next_handle() < u64::MAX,
        ensures
            final(self).spec_listeners().wf(),
            final(self).spec_listeners().handles() == old(self).spec_listeners().handles().push(r),
            r == old(self).spec_listeners().next_handle(),
            final(self).spec_listeners().next_handle() == r + 1,
            !old(self).spec_listeners().handles().contains(r),
    {
        self.listeners.add()
    }

    /// Releases an observer's handle; true only the first time.
    pub fn remove_listener(&mut self, h: u64) -> (r: bool)
        requires
            old(self).spec_listeners().wf(),
        ensures
            final(self).spec_listeners().wf(),
            r == old(self).spec_listeners().handles().contains(h),
            final(self).spec_listeners().handles() == released(old(self).spec_listeners().handles(), h),
            final(self).spec_listeners().next_handle() == old(self).spec_listeners().next_handle(),
            !final(self).spec_listeners().handles().contains(h),
            forall|x: u64|
                x != h ==> (final(self).spec_listeners().handles().contains(x)
                    <==> old(self).spec_listeners().handles().contains(x)),
    {
        self.listeners.remove(h)
    }

    /// An update from the daemon: the port's direction, and the observers to
    /// notify in registration order; a direction outside the protocol is an error.
    pub fn on_info(&self, info: &PortInfo) -> (r: Result<(Direction, Vec<u64>), ProtocolError>)
        ensures
            match r {
                Ok((d, hs)) => (info.direction == 0 && d == Direction::Input || info.direction == 1
                    && d == Direction::Output) && hs@ == self.spec_listeners().handles(),
                Err(e) => info.direction > 1 && e == ProtocolError::UnknownDirection(info.direction),
            },
    {
        match info.direction() {
            Ok(d) => Ok((d, self.listeners.snapshot())),
            Err(e) => Err(e),
        }
    }
}

} // verus!
