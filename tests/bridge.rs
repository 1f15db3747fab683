use pipewire_graph::bridge::{decide, on_global, on_global_remove, Action, BridgePhase, Command, CommandBridge, Fault, Notification};
use pipewire_graph::endpoint::{LinkEndpoint, ResolveError};
use pipewire_graph::mirror::RegistryMirror;
use pipewire_graph::object::{GlobalObject, ObjectType, Permission};
use pipewire_graph::properties::Properties;

fn object(id: u32, type_: ObjectType, pairs: &[(&str, &str)]) -> GlobalObject {
    let mut props = Properties::new();
    for (k, v) in pairs {
        props.insert(k.to_string(), v.to_string());
    }
    GlobalObject { id, permissions: Permission { bits: 0o700 }, type_, version: 3, props }
}

fn ep(k: &str, v: &str) -> LinkEndpoint {
    LinkEndpoint { key: k.to_string(), value: v.to_string() }
}

fn create(a: &str, b: &str) -> Command {
    Command::CreateLink(ep("port.alias", a), ep("port.alias", b))
}

fn destroy(a: &str, b: &str) -> Command {
    Command::DestroyLink(ep("port.alias", a), ep("port.alias", b))
}

fn link(id: u32, on: &str, op: &str, inn: &str, ip: &str) -> GlobalObject {
    object(
        id,
        ObjectType::Link,
        &[
            ("link.output.node", on),
            ("link.output.port", op),
            ("link.input.node", inn),
            ("link.input.port", ip),
        ],
    )
}

fn studio() -> RegistryMirror {
    let mut m = RegistryMirror::new();
    m.upsert(object(5, ObjectType::Port, &[("node.id", "2"), ("port.alias", "mic:out")]));
    m.upsert(object(9, ObjectType::Port, &[("node.id", "3"), ("port.alias", "spk:in")]));
    m.upsert(object(
        40,
        ObjectType::Factory,
        &[("factory.name", "link-factory"), ("factory.type.name", "PipeWire:Interface:Link")],
    ));
    m
}

fn running() -> CommandBridge {
    let mut b = CommandBridge::new();
    assert_eq!(b.on_core_info(), Some(Notification::CoreReady));
    b
}

fn create_props(a: &Action) -> Vec<(String, String)> {
    match a {
        Action::CreateObject { props, .. } => props.entries().clone(),
        _ => panic!("not a creation"),
    }
}

#[test]
fn core_info_starts_bridge_once() {
    let mut b = CommandBridge::new();
    assert_eq!(b.phase(), BridgePhase::Starting);
    assert_eq!(b.on_core_info(), Some(Notification::CoreReady));
    assert_eq!(b.phase(), BridgePhase::Running);
    assert_eq!(b.on_core_info(), None);
    assert_eq!(b.phase(), BridgePhase::Running);
}

#[test]
fn commands_wait_until_core_ready() {
    let m = studio();
    let mut b = CommandBridge::new();
    b.enqueue(create("mic:out", "spk:in"));
    assert!(b.poll(&m).is_empty());
    assert_eq!(b.pending_len(), 1);
    b.on_core_info();
    let acts = b.poll(&m);
    assert_eq!(acts.len(), 1);
    assert_eq!(b.pending_len(), 0);
}

#[test]
fn commands_execute_in_arrival_order() {
    let mut m = studio();
    let mut b = running();
    b.enqueue(destroy("mic:out", "spk:in"));
    // the daemon advertises a link between the two commands
    assert_eq!(on_global(&mut m, link(20, "2", "5", "3", "9")), Notification::ObjectAdded(20));
    b.enqueue(create("mic:out", "nowhere"));
    b.enqueue(destroy("mic:out", "spk:in"));
    let acts = b.poll(&m);
    assert_eq!(acts.len(), 3);
    assert!(matches!(acts[0], Action::DestroyGlobal(20)));
    assert!(matches!(acts[1], Action::Report(Fault::Unresolved(ResolveError::NoSuchPort))));
    assert!(matches!(acts[2], Action::DestroyGlobal(20)));
}

#[test]
fn create_link_builds_wire_properties() {
    let m = studio();
    let a = decide(&m, &create("mic:out", "spk:in"));
    match &a {
        Action::CreateObject { factory, .. } => assert_eq!(factory, "link-factory"),
        _ => panic!("expected a creation"),
    }
    let expected: Vec<(String, String)> = vec![
        ("link.output.node", "2"),
        ("link.output.port", "5"),
        ("link.input.node", "3"),
        ("link.input.port", "9"),
        ("object.linger", "1"),
    ]
    .into_iter()
    .map(|(k, v)| (k.to_string(), v.to_string()))
    .collect();
    assert_eq!(create_props(&a), expected);
}

#[test]
fn create_link_without_factory_is_transient() {
    let mut m = studio();
    m.remove(40);
    assert!(matches!(
        decide(&m, &create("mic:out", "spk:in")),
        Action::Report(Fault::FactoryUnavailable)
    ));
}

#[test]
fn create_link_with_unknown_endpoint() {
    let mut m = studio();
    assert!(matches!(
        decide(&m, &create("ghost", "spk:in")),
        Action::Report(Fault::Unresolved(ResolveError::NoSuchPort))
    ));
    m.upsert(object(11, ObjectType::Port, &[("port.alias", "orphan")]));
    assert!(matches!(
        decide(&m, &destroy("mic:out", "orphan")),
        Action::Report(Fault::Unresolved(ResolveError::MissingNodeId))
    ));
}

#[test]
fn create_then_destroy_spares_unrelated_link() {
    let mut m = studio();
    // a link that shares three of the four end properties
    m.upsert(link(21, "2", "5", "3", "10"));
    // and one that is no link object at all
    m.upsert(object(22, ObjectType::Node, &[
        ("link.output.node", "2"),
        ("link.output.port", "5"),
        ("link.input.node", "3"),
        ("link.input.port", "9"),
    ]));
    let mut b = running();
    b.enqueue(create("mic:out", "spk:in"));
    b.enqueue(destroy("mic:out", "spk:in"));
    let acts = b.poll(&m);
    assert_eq!(acts.len(), 2);
    assert!(matches!(acts[0], Action::CreateObject { .. }));
    assert!(matches!(acts[1], Action::Report(Fault::LinkNotFound)));
}

#[test]
fn second_destroy_is_benign_race() {
    let mut m = studio();
    let mut b = running();
    on_global(&mut m, link(20, "2", "5", "3", "9"));
    b.enqueue(destroy("mic:out", "spk:in"));
    let first = b.poll(&m);
    assert_eq!(on_global_remove(&mut m, 20), Notification::ObjectRemoved(20));
    b.enqueue(destroy("mic:out", "spk:in"));
    let second = b.poll(&m);
    let all: Vec<&Action> = first.iter().chain(second.iter()).collect();
    let destroys = all.iter().filter(|a| matches!(a, Action::DestroyGlobal(_))).count();
    let races = all.iter().filter(|a| matches!(a, Action::Report(Fault::LinkNotFound))).count();
    assert_eq!(destroys, 1);
    assert_eq!(races, 1);
    assert!(matches!(first[0], Action::DestroyGlobal(20)));
    assert!(matches!(second[0], Action::Report(Fault::LinkNotFound)));
}

#[test]
fn shutdown_drains_then_stops() {
    let m = studio();
    let mut b = running();
    b.enqueue(Command::Shutdown);
    b.enqueue(create("mic:out", "spk:in"));
    let acts = b.poll(&m);
    assert!(matches!(acts[0], Action::Quit));
    assert!(matches!(acts[1], Action::CreateObject { .. }));
    assert_eq!(b.phase(), BridgePhase::Draining);
    b.on_loop_exited();
    assert_eq!(b.phase(), BridgePhase::Stopped);
    b.enqueue(create("mic:out", "spk:in"));
    assert!(b.poll(&m).is_empty());
}

#[test]
fn loop_exit_before_shutdown_changes_nothing() {
    let mut b = running();
    b.on_loop_exited();
    assert_eq!(b.phase(), BridgePhase::Running);
}
