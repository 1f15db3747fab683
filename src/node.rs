use vstd::prelude::*;
use crate::properties::Properties;
use crate::proxy::{ListenerSet, ProtocolError, released};

verus! {

/// The state of a node, as the daemon reports it.
#[derive(Debug)]
pub enum NodeState {
    Error(String),
    Creating,
    Suspended,
    Idle,
    Running,
}

/// The daemon's number for each node state.
pub open spec fn node_state_code(st: NodeState) -> int {
    match st {
        NodeState::Error(_) => -1,
        NodeState::Creating => 0,
        NodeState::Suspended => 1,
        NodeState::Idle => 2,
        NodeState::Running => 3,
    }
}

/// Decodes the daemon's state number, with the message of the error state.
pub fn decode_node_state(raw: i32, error: &String) -> (r: Result<NodeState, ProtocolError>)
    ensures
        match r {
            Ok(st) => node_state_code(st) == raw && (st is Error ==> st->Error_0@ == error@),
            Err(e) => e == ProtocolError::UnknownNodeState(raw),
        },
        r is Ok <==> -1 <= raw <= 3,
{
    if raw == -1 {
        Ok(NodeState::Error(error.clone()))
    } else if raw == 0 {
        Ok(NodeState::Creating)
    } else if raw == 1 {
        Ok(NodeState::Suspended)
    } else if raw == 2 {
        Ok(NodeState::Idle)
    } else if raw == 3 {
        Ok(NodeState::Running)
    } else {
        Err(ProtocolError::UnknownNodeState(raw))
    }
}

pub const NODE_CHANGE_ALL: u64 = 31;

/// A node's information as the daemon sends it.
#[derive(Debug)]
pub struct NodeInfo {
    pub id: u32,
    pub max_input_ports: u32,
    pub max_output_ports: u32,
    pub change_mask: u64,
    pub n_input_ports: u32,
    pub n_output_ports: u32,
    pub state: i32,
    pub error: String,
    pub props: Option<Properties>,
}

impl NodeInfo {
    pub fn id(&self) -> (r: u32)
        ensures
            r == self.id,
    {
        self.id
    }

    pub fn max_input_ports(&self) -> (r: u32)
        ensures
            r == self.max_input_ports,
    {
        self.max_input_ports
    }

    pub fn max_output_ports(&self) -> (r: u32)
        ensures
            r == self.max_output_ports,
    {
        self.max_output_ports
    }

    pub fn n_input_ports(&self) -> (r: u32)
        ensures
            r == self.n_input_ports,
    {
        self.n_input_ports
    }

    pub fn n_output_ports(&self) -> (r: u32)
        ensures
            r == self.n_output_ports,
    {
        self.n_output_ports
    }

    /// The change mask, if it holds only the input-ports, output-ports,
    /// state, properties and parameters bits.
    pub fn change_mask(&self) -> (r: Result<u64, ProtocolError>)
        ensures
            r is Ok <==> self.change_mask & !NODE_CHANGE_ALL == 0,
            r matches Ok(m) ==> m == self.change_mask,
            r matches Err(e) ==> e == ProtocolError::UnknownChangeMask(self.change_mask),
    {
        if self.change_mask & !NODE_CHANGE_ALL == 0 {
            Ok(self.change_mask)
        } else {
            Err(ProtocolError::UnknownChangeMask(self.change_mask))
        }
    }

    /// The decoded state.
    pub fn state(&self) -> (r: Result<NodeState, ProtocolError>)
        ensures
            match r {
                Ok(st) => node_state_code(st) == self.state && (st is Error ==> st->Error_0@
                    == self.error@),
                Err(e) => e == ProtocolError::UnknownNodeState(self.state),
            },
            r is Ok <==> -1 <= self.state <= 3,
    {
        decode_node_state(self.state, &self.error)
    }

    pub fn props(&self) -> (r: Option<&Properties>)
        ensures
            match r {
                Some(p) => self.props == Some(*p),
                None => self.props is None,
            },
    {
        self.props.as_ref()
    }
}

/// A node that this client follows, with the observers of its updates.
pub struct Node {
    listeners: ListenerSet,
}

impl Node {
    pub closed spec fn spec_listeners(&self) -> ListenerSet {
        self.listeners
    }

    pub fn new() -> (r: Node)
        ensures
            r.spec_listeners().wf(),
            r.spec_listeners().handles() == Seq::<u64>::empty(),
            r.spec_listeners().next_handle() == 0,
    {
        Node { listeners: ListenerSet::new() }
    }

    /// Registers an observer of this node's updates.
    pub fn add_listener_local(&mut self) -> (r: u64)
        requires
            old(self).spec_listeners().wf(),
            old(self).spec_listeners().next_handle() < u64::MAX,
        ensures
            final(self).spec_listeners().wf(),
            final(self).spec_listeners().handles() == old(self).spec_listeners().handles().push(r),
            r == old(self).spec_listeners().next_handle(),
            final(self).spec_listeners().next_handle() == r + 1,
            !old(self).spec_listeners().handles().contains(r),
    {
        self.listeners.add()
    }

    /// Releases an observer's handle; true only the first time.
    pub fn remove_listener(&mut self, h: u64) -> (r: bool)
        requires
            old(self).spec_listeners().wf(),
        ensures
            final(self).spec_listeners().wf(),
            r == old(self).spec_listeners().handles().contains(h),
            final(self).spec_listeners().handles() == released(old(self).spec_listeners().handles(), h),
            final(self).spec_listeners().next_handle() == old(self).spec_listeners().next_handle(),
            !final(self).spec_listeners().handles().contains(h),
            forall|x: u64|
                x != h ==> (final(self).spec_listeners().handles().contains(x)
                    <==> old(self).spec_listeners().handles().contains(x)),
    {
        self.listeners.remove(h)
    }

    /// An update from the daemon: its state, and the observers to notify in
    /// registration order; a state outside the protocol is an error.
    pub fn on_info(&self, info: &NodeInfo) -> (r: Result<(NodeState, Vec<u64>), ProtocolError>)
        ensures
            match r {
                Ok((st, hs)) => node_state_code(st) == info.state && (st is Error ==> st->Error_0@
                    == info.error@) && hs@ == self.spec_listeners().handles(),
                Err(e) => e == ProtocolError::UnknownNodeState(info.state),
            },
            r is Ok <==> -1 <= info.state <= 3,
    {
        match info.state() {
            Ok(st) => Ok((st, self.listeners.snapshot())),
            Err(e) => Err(e),
        }
    }
}

} // verus!
