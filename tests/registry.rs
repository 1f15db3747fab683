use pipewire_graph::endpoint::{decimal_string, link_properties, resolve_endpoint, LinkEndpoint, ResolveError};
use pipewire_graph::mirror::{PropertyQuery, RegistryMirror};
use pipewire_graph::object::{GlobalObject, ObjectType, Permission, PipewireObject};
use pipewire_graph::properties::Properties;

fn props(pairs: &[(&str, &str)]) -> Properties {
    let mut p = Properties::new();
    for (k, v) in pairs {
        p.insert(k.to_string(), v.to_string());
    }
    p
}

fn object(id: u32, type_: ObjectType, pairs: &[(&str, &str)]) -> GlobalObject {
    GlobalObject {
        id,
        permissions: Permission { bits: 0o700 },
        type_,
        version: 3,
        props: props(pairs),
    }
}

fn endpoint(k: &str, v: &str) -> LinkEndpoint {
    LinkEndpoint { key: k.to_string(), value: v.to_string() }
}

fn query(kind: Option<ObjectType>, pairs: &[(&str, &str)]) -> PropertyQuery {
    PropertyQuery {
        kind,
        pairs: pairs.iter().map(|(k, v)| (k.to_string(), v.to_string())).collect(),
    }
}

#[test]
fn set_object_type() {
    assert_eq!(
        ObjectType::from_str("PipeWire:Interface:Client"),
        ObjectType::Client
    );
    assert_eq!(ObjectType::Client.to_str(), "PipeWire:Interface:Client");
    assert_eq!(ObjectType::Client.client_version(), 3);

    let o = ObjectType::Other("PipeWire:Interface:Badger".to_string());
    assert_eq!(ObjectType::from_str("PipeWire:Interface:Badger"), o);
    assert_eq!(o.to_str(), "PipeWire:Interface:Badger");
}

#[test]
fn object_type_names_round_trip() {
    let kinds = vec![
        ObjectType::Client,
        ObjectType::Core,
        ObjectType::Device,
        ObjectType::Factory,
        ObjectType::Link,
        ObjectType::Metadata,
        ObjectType::Module,
        ObjectType::Node,
        ObjectType::Port,
    ];
    for k in kinds {
        assert_eq!(ObjectType::from_str(&k.to_str()), k);
    }
    assert_eq!(ObjectType::Link.to_str(), "PipeWire:Interface:Link");
    assert_eq!(ObjectType::Core.client_version(), 4);
    assert_ne!(ObjectType::Port, ObjectType::Link);
}

#[test]
fn permission_bits() {
    assert_eq!(Permission::from_bits(0o710), Some(Permission { bits: 0o710 }));
    assert_eq!(Permission::from_bits(0o400), Some(Permission { bits: 0o400 }));
    assert_eq!(Permission::from_bits(0o020), None);
    assert!(Permission { bits: 0o700 }.contains(Permission { bits: 0o400 }));
    assert!(!Permission { bits: 0o400 }.contains(Permission { bits: 0o200 }));
}

#[test]
fn properties_insert_replaces_value_in_place() {
    let p = props(&[("a", "1"), ("b", "2"), ("a", "3")]);
    assert_eq!(p.get(&"a".to_string()), Some(&"3".to_string()));
    assert_eq!(p.get(&"b".to_string()), Some(&"2".to_string()));
    assert_eq!(p.get(&"c".to_string()), None);
    assert_eq!(p.len(), 2);
    let keys: Vec<&str> = p.entries().iter().map(|(k, _)| k.as_str()).collect();
    assert_eq!(keys, vec!["a", "b"]);
}

#[test]
fn decimal_ids() {
    assert_eq!(decimal_string(0), "0");
    assert_eq!(decimal_string(7), "7");
    assert_eq!(decimal_string(10), "10");
    assert_eq!(decimal_string(305), "305");
    assert_eq!(decimal_string(u32::MAX), "4294967295");
}

#[test]
fn upsert_keeps_one_object_per_id() {
    let mut m = RegistryMirror::new();
    m.upsert(object(7, ObjectType::Node, &[("node.name", "b")]));
    m.upsert(object(3, ObjectType::Node, &[("node.name", "a")]));
    m.upsert(object(7, ObjectType::Node, &[("node.name", "c")]));
    assert_eq!(m.len(), 2);
    let ids: Vec<u32> = m.objects().iter().map(|o| o.id).collect();
    assert_eq!(ids, vec![3, 7]);
    let o = m.get(7).unwrap();
    assert_eq!(o.props.get(&"node.name".to_string()), Some(&"c".to_string()));
    assert!(m.get(5).is_none());
}

#[test]
fn remove_of_absent_id_is_noop() {
    let mut m = RegistryMirror::new();
    m.upsert(object(1, ObjectType::Node, &[]));
    assert!(!m.remove(2));
    assert_eq!(m.len(), 1);
    assert!(m.remove(1));
    assert!(!m.remove(1));
    assert_eq!(m.len(), 0);
}

#[test]
fn upsert_remove_then_find_returns_nothing() {
    let mut m = RegistryMirror::new();
    m.upsert(object(4, ObjectType::Node, &[("node.name", "other")]));
    m.upsert(object(12, ObjectType::Port, &[("port.alias", "mic:out")]));
    m.remove(12);
    let q = query(None, &[("port.alias", "mic:out")]);
    assert!(m.find_by_property(&q).is_none());
    let q = query(None, &[("node.name", "other")]);
    assert_eq!(m.find_by_property(&q).unwrap().id, 4);
}

#[test]
fn find_by_property_takes_lowest_id_and_kind() {
    let mut m = RegistryMirror::new();
    m.upsert(object(9, ObjectType::Port, &[("k", "v")]));
    m.upsert(object(2, ObjectType::Node, &[("k", "v")]));
    m.upsert(object(5, ObjectType::Port, &[("k", "v"), ("x", "y")]));
    assert_eq!(m.find_by_property(&query(None, &[("k", "v")])).unwrap().id, 2);
    assert_eq!(
        m.find_by_property(&query(Some(ObjectType::Port), &[("k", "v")])).unwrap().id,
        5
    );
    assert_eq!(
        m.find_by_property(&query(Some(ObjectType::Port), &[("k", "v"), ("x", "y")]))
            .unwrap()
            .id,
        5
    );
    assert!(m
        .find_by_property(&query(Some(ObjectType::Link), &[("k", "v")]))
        .is_none());
}

#[test]
fn factory_name_for_link() {
    let mut m = RegistryMirror::new();
    assert_eq!(m.get_factory_name(&ObjectType::Link), None);
    m.upsert(object(
        30,
        ObjectType::Factory,
        &[
            ("factory.name", "link-factory-0"),
            ("factory.type.name", "PipeWire:Interface:Link"),
        ],
    ));
    assert_eq!(
        m.get_factory_name(&ObjectType::Link),
        Some(&"link-factory-0".to_string())
    );
    assert_eq!(m.get_factory_name(&ObjectType::Node), None);
}

#[test]
fn factory_name_absent_without_factory() {
    let mut m = RegistryMirror::new();
    // right type name, wrong kind of object
    m.upsert(object(
        31,
        ObjectType::Module,
        &[
            ("factory.name", "link-factory-0"),
            ("factory.type.name", "PipeWire:Interface:Link"),
        ],
    ));
    // a factory for another kind
    m.upsert(object(
        32,
        ObjectType::Factory,
        &[
            ("factory.name", "client-node"),
            ("factory.type.name", "PipeWire:Interface:ClientNode"),
        ],
    ));
    // a link factory with no name
    m.upsert(object(
        33,
        ObjectType::Factory,
        &[("factory.type.name", "PipeWire:Interface:Link")],
    ));
    assert_eq!(m.get_factory_name(&ObjectType::Link), None);
}

fn two_ports() -> RegistryMirror {
    let mut m = RegistryMirror::new();
    m.upsert(object(
        5,
        ObjectType::Port,
        &[("node.id", "2"), ("port.direction", "out")],
    ));
    m.upsert(object(
        9,
        ObjectType::Port,
        &[("node.id", "3"), ("port.direction", "in")],
    ));
    m
}

#[test]
fn resolve_two_ports_to_link_properties() {
    let m = two_ports();
    let out = resolve_endpoint(&m, &endpoint("port.direction", "out")).unwrap();
    let inp = resolve_endpoint(&m, &endpoint("port.direction", "in")).unwrap();
    assert_eq!(out.node_id, "2");
    assert_eq!(out.port_id, 5);
    assert_eq!(inp.node_id, "3");
    assert_eq!(inp.port_id, 9);
    let p = link_properties(&out, &inp);
    let expected = vec![
        ("link.output.node", "2"),
        ("link.output.port", "5"),
        ("link.input.node", "3"),
        ("link.input.port", "9"),
        ("object.linger", "1"),
    ];
    let got: Vec<(&str, &str)> = p.entries().iter().map(|(k, v)| (k.as_str(), v.as_str())).collect();
    assert_eq!(got, expected);
}

#[test]
fn resolve_failures() {
    let mut m = two_ports();
    assert_eq!(
        resolve_endpoint(&m, &endpoint("port.alias", "nope")).err(),
        Some(ResolveError::NoSuchPort)
    );
    // a node holding the pair is no port
    m.upsert(object(1, ObjectType::Node, &[("node.name", "n")]));
    assert_eq!(
        resolve_endpoint(&m, &endpoint("node.name", "n")).err(),
        Some(ResolveError::NoSuchPort)
    );
    m.upsert(object(11, ObjectType::Port, &[("port.alias", "lonely")]));
    assert_eq!(
        resolve_endpoint(&m, &endpoint("port.alias", "lonely")).err(),
        Some(ResolveError::MissingNodeId)
    );
}

#[test]
fn object_names_and_directions() {
    let p = object(5, ObjectType::Port, &[("port.alias", "sys:out"), ("object.path", "x"), ("port.direction", "out")]);
    assert_eq!(
        PipewireObject::get_name(&p),
        Some(("object.path".to_string(), "x".to_string()))
    );
    assert!(PipewireObject::is_output(&p));
    assert!(!PipewireObject::is_input(&p));
    let n = object(6, ObjectType::Node, &[("port.direction", "in")]);
    assert!(!PipewireObject::is_input(&n));
    assert_eq!(PipewireObject::get_name(&n), None);
    let c = object(7, ObjectType::Client, &[("application.name", "app"), ("client.name", "cli")]);
    assert_eq!(
        PipewireObject::get_name(&c),
        Some(("client.name".to_string(), "cli".to_string()))
    );
}
