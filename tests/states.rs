use pipewire_graph::link::{decode_link_state, Link, LinkChangeMask, LinkInfo, LinkState};
use pipewire_graph::node::{decode_node_state, Node, NodeInfo, NodeState};
use pipewire_graph::port::{decode_direction, Direction, Port, PortInfo};
use pipewire_graph::proxy::{ListenerSet, ProtocolError};

fn link_info(state: i32) -> LinkInfo {
    LinkInfo {
        id: 20,
        output_node_id: 2,
        output_port_id: 5,
        input_node_id: 3,
        input_port_id: 9,
        change_mask: 1,
        state,
        error: "no format".to_string(),
        props: None,
    }
}

#[test]
fn link_states_decode_in_order() {
    let none = String::new();
    assert!(matches!(decode_link_state(0, &none), Ok(LinkState::Init)));
    assert!(matches!(decode_link_state(1, &none), Ok(LinkState::Negotiating)));
    assert!(matches!(decode_link_state(2, &none), Ok(LinkState::Allocating)));
    assert!(matches!(decode_link_state(3, &none), Ok(LinkState::Paused)));
    assert!(matches!(decode_link_state(4, &none), Ok(LinkState::Active)));
    assert!(matches!(decode_link_state(-1, &none), Ok(LinkState::Unlinked)));
    match decode_link_state(-2, &"busy".to_string()) {
        Ok(LinkState::Error(m)) => assert_eq!(m, "busy"),
        _ => panic!("expected the error state"),
    }
    assert_eq!(decode_link_state(5, &none).err(), Some(ProtocolError::UnknownLinkState(5)));
    assert_eq!(decode_link_state(-3, &none).err(), Some(ProtocolError::UnknownLinkState(-3)));
}

#[test]
fn link_tracking_follows_updates() {
    let mut l = Link::new();
    let a = l.add_listener_local();
    let b = l.add_listener_local();
    assert_ne!(a, b);
    for (raw, want) in [(0, "Init"), (1, "Negotiating"), (2, "Allocating"), (4, "Active")] {
        let hs = l.on_info(&link_info(raw)).unwrap();
        assert_eq!(hs, vec![a, b]);
        let got = format!("{:?}", l.state().unwrap());
        assert_eq!(got, want);
    }
    assert!(l.state().unwrap().is_terminal());
}

#[test]
fn unknown_link_state_ends_tracking() {
    let mut l = Link::new();
    l.add_listener_local();
    l.on_info(&link_info(1)).unwrap();
    assert_eq!(l.on_info(&link_info(9)).err(), Some(ProtocolError::UnknownLinkState(9)));
    assert_eq!(l.failure(), Some(ProtocolError::UnknownLinkState(9)));
    // a later valid update is not taken
    assert_eq!(l.on_info(&link_info(4)).err(), Some(ProtocolError::UnknownLinkState(9)));
    assert!(matches!(l.state(), Some(LinkState::Negotiating)));
}

#[test]
fn listener_released_exactly_once() {
    let mut l = Link::new();
    let a = l.add_listener_local();
    let b = l.add_listener_local();
    assert!(l.remove_listener(a));
    assert!(!l.remove_listener(a));
    assert_eq!(l.on_info(&link_info(0)).unwrap(), vec![b]);
    let c = l.add_listener_local();
    assert_ne!(c, a);
    assert_eq!(l.on_info(&link_info(1)).unwrap(), vec![b, c]);
}

#[test]
fn listener_set_handles() {
    let mut s = ListenerSet::new();
    let a = s.add();
    let b = s.add();
    assert_eq!((a, b), (0, 1));
    assert!(s.contains(a));
    assert!(s.remove(a));
    assert!(!s.contains(a));
    assert_eq!(s.snapshot(), vec![b]);
    assert_eq!(s.len(), 1);
}

#[test]
fn link_info_fields_and_mask() {
    let mut i = link_info(2);
    assert_eq!(
        (i.id(), i.output_node_id(), i.output_port_id(), i.input_node_id(), i.input_port_id()),
        (20, 2, 5, 3, 9)
    );
    assert_eq!(i.change_mask(), Ok(LinkChangeMask { bits: 1 }));
    assert!(i.change_mask().unwrap().contains(1));
    i.change_mask = 8;
    assert_eq!(i.change_mask(), Err(ProtocolError::UnknownChangeMask(8)));
    assert_eq!(LinkChangeMask::from_bits(7), Some(LinkChangeMask { bits: 7 }));
    assert!(i.props().is_none());
}

fn node_info(state: i32) -> NodeInfo {
    NodeInfo {
        id: 2,
        max_input_ports: 0,
        max_output_ports: 8,
        change_mask: 4,
        n_input_ports: 0,
        n_output_ports: 2,
        state,
        error: "gone".to_string(),
        props: None,
    }
}

#[test]
fn node_states_decode() {
    let none = String::new();
    assert!(matches!(decode_node_state(0, &none), Ok(NodeState::Creating)));
    assert!(matches!(decode_node_state(1, &none), Ok(NodeState::Suspended)));
    assert!(matches!(decode_node_state(2, &none), Ok(NodeState::Idle)));
    assert!(matches!(decode_node_state(3, &none), Ok(NodeState::Running)));
    assert!(matches!(decode_node_state(-1, &none), Ok(NodeState::Error(_))));
    assert_eq!(decode_node_state(4, &none).err(), Some(ProtocolError::UnknownNodeState(4)));
    let mut n = Node::new();
    let h = n.add_listener_local();
    let (st, hs) = n.on_info(&node_info(3)).unwrap();
    assert!(matches!(st, NodeState::Running));
    assert_eq!(hs, vec![h]);
    assert!(n.remove_listener(h));
    assert!(!n.remove_listener(h));
    let i = node_info(-1);
    match i.state() {
        Ok(NodeState::Error(m)) => assert_eq!(m, "gone"),
        _ => panic!("expected the error state"),
    }
    assert_eq!(i.change_mask(), Ok(4));
    assert_eq!(
        (i.id(), i.max_input_ports(), i.max_output_ports(), i.n_input_ports(), i.n_output_ports()),
        (2, 0, 8, 0, 2)
    );
    assert_eq!(n.on_info(&node_info(7)).err(), Some(ProtocolError::UnknownNodeState(7)));
}

#[test]
fn port_directions_decode() {
    assert_eq!(decode_direction(0), Ok(Direction::Input));
    assert_eq!(decode_direction(1), Ok(Direction::Output));
    assert_eq!(decode_direction(2), Err(ProtocolError::UnknownDirection(2)));
    let mut p = Port::new();
    let h = p.add_listener_local();
    let info = PortInfo { id: 5, direction: 1, change_mask: 3, props: None };
    assert_eq!(p.on_info(&info).unwrap(), (Direction::Output, vec![h]));
    assert_eq!(info.id(), 5);
    assert_eq!(info.change_mask(), Ok(3));
    let bad = PortInfo { id: 5, direction: 3, change_mask: 4, props: None };
    assert_eq!(bad.change_mask(), Err(ProtocolError::UnknownChangeMask(4)));
    assert_eq!(p.on_info(&bad).err(), Some(ProtocolError::UnknownDirection(3)));
    assert!(p.remove_listener(h));
}
