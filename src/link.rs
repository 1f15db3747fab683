use vstd::prelude::*;
use crate::properties::Properties;
use crate::proxy::{ListenerSet, ProtocolError, released};

verus! {

/// The state of a link, as the daemon reports it.
#[derive(Debug)]
pub enum LinkState {
    Error(String),
    Unlinked,
    Init,
    Negotiating,
    Allocating,
    Paused,
    Active,
}

/// The daemon's number for each link state.
pub open spec fn link_state_code(st: LinkState) -> int {
    match st {
        LinkState::Error(_) => -2,
        LinkState::Unlinked => -1,
        LinkState::Init => 0,
        LinkState::Negotiating => 1,
        LinkState::Allocating => 2,
        LinkState::Paused => 3,
        LinkState::Active => 4,
    }
}

impl LinkState {
    /// Active and Unlinked end a link's setup well; Error ends it badly.
    pub fn is_terminal(&self) -> (r: bool)
        ensures
            r == (*self is Active || *self is Unlinked || *self is Error),
    {
        match self {
            LinkState::Active | LinkState::Unlinked | LinkState::Error(_) => true,
            _ => false,
        }
    }
}

/// Decodes the daemon's state number, with the message that comes with the
/// error state. A number outside the protocol is an error, never a default.
pub fn decode_link_state(raw: i32, error: &String) -> (r: Result<LinkState, ProtocolError>)
    ensures
        match r {
            Ok(st) => link_state_code(st) == raw && (st is Error ==> st->Error_0@ == error@),
            Err(e) => e == ProtocolError::UnknownLinkState(raw),
        },
        r is Ok <==> -2 <= raw <= 4,
{
    if raw == -2 {
        Ok(LinkState::Error(error.clone()))
    } else if raw == -1 {
        Ok(LinkState::Unlinked)
    } else if raw == 0 {
        Ok(LinkState::Init)
    } else if raw == 1 {
        Ok(LinkState::Negotiating)
    } else if raw == 2 {
        Ok(LinkState::Allocating)
    } else if raw == 3 {
        Ok(LinkState::Paused)
    } else if raw == 4 {
        Ok(LinkState::Active)
    } else {
        Err(ProtocolError::UnknownLinkState(raw))
    }
}

/// Which parts of a link's information changed in an update.
#[derive(Clone, Copy, Debug, PartialEq, Eq, Structural)]
pub struct LinkChangeMask {
    pub bits: u64,
}

pub const LINK_CHANGE_STATE: u64 = 1;

pub const LINK_CHANGE_FORMAT: u64 = 2;

pub const LINK_CHANGE_PROPS: u64 = 4;

pub const LINK_CHANGE_ALL: u64 = LINK_CHANGE_STATE | LINK_CHANGE_FORMAT | LINK_CHANGE_PROPS;

impl LinkChangeMask {
    /// Accepts only the state, format and properties bits.
    pub fn from_bits(bits: u64) -> (r: Option<LinkChangeMask>)
        ensures
            r is Some <==> bits & !LINK_CHANGE_ALL == 0,
            r matches Some(m) ==> m.bits == bits,
    {
        if bits & !LINK_CHANGE_ALL == 0 {
            Some(LinkChangeMask { bits })
        } else {
            None
        }
    }

    pub fn contains(&self, bit: u64) -> (r: bool)
        ensures
            r == (self.bits & bit == bit),
    {
        self.bits & bit == bit
    }
}

/// A link's information as the daemon sends it.
#[derive(Debug)]
pub struct LinkInfo {
    pub id: u32,
    pub output_node_id: u32,
    pub output_port_id: u32,
    pub input_node_id: u32,
    pub input_port_id: u32,
    pub change_mask: u64,
    pub state: i32,
    pub error: String,
    pub props: Option<Properties>,
}

impl LinkInfo {
    pub fn id(&self) -> (r: u32)
        ensures
            r == self.id,
    {
        self.id
    }

    pub fn output_node_id(&self) -> (r: u32)
        ensures
            r == self.output_node_id,
    {
        self.output_node_id
    }

    pub fn output_port_id(&self) -> (r: u32)
        ensures
            r == self.output_port_id,
    {
        self.output_port_id
    }

    pub fn input_node_id(&self) -> (r: u32)
        ensures
            r == self.input_node_id,
    {
        self.input_node_id
    }

    pub fn input_port_id(&self) -> (r: u32)
        ensures
            r == self.input_port_id,
    {
        self.input_port_id
    }

    /// The decoded state.
    pub fn state(&self) -> (r: Result<LinkState, ProtocolError>)
        ensures
            match r {
                Ok(st) => link_state_code(st) == self.state && (st is Error ==> st->Error_0@
                    == self.error@),
                Err(e) => e == ProtocolError::UnknownLinkState(self.state),
            },
            r is Ok <==> -2 <= self.state <= 4,
    {
        decode_link_state(self.state, &self.error)
    }

    /// The decoded change mask.
    pub fn change_mask(&self) -> (r: Result<LinkChangeMask, ProtocolError>)
        ensures
            r is Ok <==> self.change_mask & !LINK_CHANGE_ALL == 0,
            r matches Ok(m) ==> m.bits == self.change_mask,
            r matches Err(e) ==> e == ProtocolError::UnknownChangeMask(self.change_mask),
    {
        match LinkChangeMask::from_bits(self.change_mask) {
            Some(m) => Ok(m),
            None => Err(ProtocolError::UnknownChangeMask(self.change_mask)),
        }
    }

    pub fn props(&self) -> (r: Option<&Properties>)
        ensures
            match r {
                Some(p) => self.props == Some(*p),
                None => self.props is None,
            },
    {
        self.props.as_ref()
    }
}

/// A link created by this client, followed through its states. Observers
/// register and release handles; each update names the handles to notify.
pub struct Link {
    listeners: ListenerSet,
    state: Option<LinkState>,
    failed: Option<ProtocolError>,
}

impl Link {
    pub open spec fn wf(&self) -> bool {
        self.spec_listeners().wf()
    }

    pub closed spec fn spec_listeners(&self) -> ListenerSet {
        self.listeners
    }

    /// The last state decoded, if any.
    pub closed spec fn spec_state(&self) -> Option<LinkState> {
        self.state
    }

    /// The error that ended the tracking, if one did.
    pub closed spec fn spec_failed(&self) -> Option<ProtocolError> {
        self.failed
    }

    pub fn new() -> (r: Link)
        ensures
            r.wf(),
            r.spec_listeners().handles() == Seq::<u64>::empty(),
            r.spec_listeners().next_handle() == 0,
            r.spec_state() is None,
            r.spec_failed() is None,
    {
        Link { listeners: ListenerSet::new(), state: None, failed: None }
    }

    /// Registers an observer of this link's updates.
    pub fn add_listener_local(&mut self) -> (r: u64)
        requires
            old(self).wf(),
            old(self).spec_listeners().next_handle() < u64::MAX,
        ensures
            final(self).wf(),
            final(self).spec_listeners().handles() == old(self).spec_listeners().handles().push(r),
            r == old(self).spec_listeners().next_handle(),
            final(self).spec_listeners().next_handle() == r + 1,
            !old(self).spec_listeners().handles().contains(r),
            final(self).spec_state() == old(self).spec_state(),
            final(self).spec_failed() == old(self).spec_failed(),
    {
        self.listeners.add()
    }

    /// Releases an observer's handle; true only the first time.
    pub fn remove_listener(&mut self, h: u64) -> (r: bool)
        requires
            old(self).wf(),
        ensures
            final(self).wf(),
            r == old(self).spec_listeners().handles().contains(h),
            final(self).spec_listeners().handles() == released(old(self).spec_listeners().handles(), h),
            final(self).spec_listeners().next_handle() == old(self).spec_listeners().next_handle(),
            !final(self).spec_listeners().handles().contains(h),
            forall|x: u64|
                x != h ==> (final(self).spec_listeners().handles().contains(x)
                    <==> old(self).spec_listeners().handles().contains(x)),
            final(self).spec_state() == old(self).spec_state(),
            final(self).spec_failed() == old(self).spec_failed(),
    {
        self.listeners.remove(h)
    }

    /// An update from the daemon. The new state is kept and the registered
    /// observers are named, in registration order. A state outside the
    /// protocol ends the tracking of this link: that update and every later
    /// one return the error.
    pub fn on_info(&mut self, info: &LinkInfo) -> (r: Result<Vec<u64>, ProtocolError>)
        requires
            old(self).wf(),
        ensures
            final(self).wf(),
            final(self).spec_listeners() == old(self).spec_listeners(),
            match old(self).spec_failed() {
                Some(e) => r == Err::<Vec<u64>, ProtocolError>(e) && final(self).spec_failed() == Some(
                    e,
                ) && final(self).spec_state() == old(self).spec_state(),
                None => if -2 <= info.state <= 4 {
                    &&& r matches Ok(hs) && hs@ == old(self).spec_listeners().handles()
                    &&& final(self).spec_failed() is None
                    &&& final(self).spec_state() matches Some(st) && link_state_code(st) == info.state
                        && (st is Error ==> st->Error_0@ == info.error@)
                } else {
                    &&& r == Err::<Vec<u64>, ProtocolError>(ProtocolError::UnknownLinkState(info.state))
                    &&& final(self).spec_failed() == Some(ProtocolError::UnknownLinkState(info.state))
                    &&& final(self).spec_state() == old(self).spec_state()
                },
            },
    {
        if let Some(e) = self.failed {
            return Err(e);
        }
        match info.state() {
            Ok(st) => {
                self.state = Some(st);
                Ok(self.listeners.snapshot())
            },
            Err(e) => {
                self.failed = Some(e);
                Err(e)
            },
        }
    }

    /// The last state decoded.
    pub fn state(&self) -> (r: Option<&LinkState>)
        ensures
            match r {
                Some(st) => self.spec_state() == Some(*st),
                None => self.spec_state() is None,
            },
    {
        self.state.as_ref()
    }

    /// The error that ended the tracking, if one did.
    pub fn failure(&self) -> (r: Option<ProtocolError>)
        ensures
            r == self.spec_failed(),
    {
        self.failed
    }
}

} // verus!
