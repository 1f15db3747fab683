use vstd::prelude::*;
use vstd::string::*;
use crate::mirror::{PropertyQuery, RegistryMirror, find_spec, query_pairs};
use crate::object::{GlobalObject, ObjectType};
use crate::properties::{Entry, Properties, lookup};

verus! {

pub open spec fn digit_char(d: nat) -> char {
    if d == 0 {
        '0'
    } else if d == 1 {
        '1'
    } else if d == 2 {
        '2'
    } else if d == 3 {
        '3'
    } else if d == 4 {
        '4'
    } else if d == 5 {
        '5'
    } else if d == 6 {
        '6'
    } else if d == 7 {
        '7'
    } else if d == 8 {
        '8'
    } else {
        '9'
    }
}

/// The decimal digits of `n`, most significant first, without leading zeros.
pub open spec fn decimal(n: nat) -> Seq<char>
    decreases n,
{
    if n < 10 {
        seq![digit_char(n)]
    } else {
        decimal(n / 10).push(digit_char(n % 10))
    }
}

fn digit_str(d: u32) -> (r: &'static str)
    requires
        d < 10,
    ensures
        r@ == seq![digit_char(d as nat)],
{
    proof {
        reveal_strlit("0");
        reveal_strlit("1");
        reveal_strlit("2");
        reveal_strlit("3");
        reveal_strlit("4");
        reveal_strlit("5");
        reveal_strlit("6");
        reveal_strlit("7");
        reveal_strlit("8");
        reveal_strlit("9");
    }
    if d == 0 {
        "0"
    } else if d == 1 {
        "1"
    } else if d == 2 {
        "2"
    } else if d == 3 {
        "3"
    } else if d == 4 {
        "4"
    } else if d == 5 {
        "5"
    } else if d == 6 {
        "6"
    } else if d == 7 {
        "7"
    } else if d == 8 {
        "8"
    } else {
        "9"
    }
}

/// `n` written in decimal, as the daemon writes ids in properties.
pub fn decimal_string(n: u32) -> (r: String)
    ensures
        r@ == decimal(n as nat),
    decreases n,
{
    if n < 10 {
        String::from_str(digit_str(n))
    } else {
        let mut s = decimal_string(n / 10);
        s.append(digit_str(n % 10));
        s
    }
}

/// A port named by one of its properties rather than by its id.
#[derive(Debug)]
pub struct LinkEndpoint {
    pub key: String,
    pub value: String,
}

impl View for LinkEndpoint {
    type V = Entry;

    open spec fn view(&self) -> Entry {
        (self.key@, self.value@)
    }
}

/// Why an endpoint could not be resolved.
#[derive(Clone, Copy, Debug, PartialEq, Eq, Structural)]
pub enum ResolveError {
    /// No port holds the property.
    NoSuchPort,
    /// The port found names no owning node.
    MissingNodeId,
}

/// The port that an endpoint stands for, and the node that owns it.
#[derive(Debug)]
pub struct ResolvedEndpoint {
    pub node_id: String,
    pub port_id: u32,
}

/// The port that a descriptor selects: the lowest-id port holding the pair.
pub open spec fn endpoint_port(s: Seq<GlobalObject>, ep: Entry) -> Option<GlobalObject> {
    find_spec(s, Some(ObjectType::Port), seq![ep])
}

/// Resolution of a descriptor to (owning node id, port id).
pub open spec fn resolve_spec(s: Seq<GlobalObject>, ep: Entry) -> Result<
    (Seq<char>, u32),
    ResolveError,
> {
    match endpoint_port(s, ep) {
        None => Err(ResolveError::NoSuchPort),
        Some(port) => match lookup(port.props@, "node.id"@) {
            None => Err(ResolveError::MissingNodeId),
            Some(node) => Ok((node, port.id)),
        },
    }
}

/// The four properties that name a link's ends on the wire.
pub open spec fn link_pairs(out: (Seq<char>, u32), inp: (Seq<char>, u32)) -> Seq<Entry> {
    seq![
        ("link.output.node"@, out.0),
        ("link.output.port"@, decimal(out.1 as nat)),
        ("link.input.node"@, inp.0),
        ("link.input.port"@, decimal(inp.1 as nat)),
    ]
}

/// The properties a new link is created with: its ends, and a request that
/// the daemon keep it once this client no longer holds it.
pub open spec fn link_create_props(out: (Seq<char>, u32), inp: (Seq<char>, u32)) -> Seq<Entry> {
    link_pairs(out, inp).push(("object.linger"@, "1"@))
}

impl ResolvedEndpoint {
    pub open spec fn model(&self) -> (Seq<char>, u32) {
        (self.node_id@, self.port_id)
    }
}

fn pair(k: &str, v: String) -> (r: (String, String))
    ensures
        r.0@ == k@,
        r.1@ == v@,
{
    (String::from_str(k), v)
}

/// Finds the port that an endpoint descriptor names, and its owning node.
pub fn resolve_endpoint(mirror: &RegistryMirror, ep: &LinkEndpoint) -> (r: Result<
    ResolvedEndpoint,
    ResolveError,
>)
    requires
        mirror.wf(),
    ensures
        match r {
            Ok(e) => resolve_spec(mirror.spec_objects(), ep@) == Ok::<_, ResolveError>(e.model()),
            Err(err) => resolve_spec(mirror.spec_objects(), ep@) == Err::<(Seq<char>, u32), _>(err),
        },
{
    let mut pairs: Vec<(String, String)> = Vec::new();
    pairs.push((ep.key.clone(), ep.value.clone()));
    let q = PropertyQuery { kind: Some(ObjectType::Port), pairs };
    assert(query_pairs(q) =~= seq![ep@]);
    match mirror.find_by_property(&q) {
        None => Err(ResolveError::NoSuchPort),
        Some(port) => match port.props.get(&String::from_str("node.id")) {
            None => Err(ResolveError::MissingNodeId),
            Some(node) => Ok(ResolvedEndpoint { node_id: node.clone(), port_id: port.id }),
        },
    }
}

fn link_pair_vec(out: &ResolvedEndpoint, inp: &ResolvedEndpoint) -> (r: Vec<(String, String)>)
    ensures
        r@.map_values(|e: (String, String)| (e.0@, e.1@)) == link_pairs(out.model(), inp.model()),
{
    let mut v: Vec<(String, String)> = Vec::new();
    v.push(pair("link.output.node", out.node_id.clone()));
    v.push(pair("link.output.port", decimal_string(out.port_id)));
    v.push(pair("link.input.node", inp.node_id.clone()));
    v.push(pair("link.input.port", decimal_string(inp.port_id)));
    assert(v@.map_values(|e: (String, String)| (e.0@, e.1@)) =~= link_pairs(out.model(), inp.model()));
    v
}

/// The search for an existing link between two resolved ends: a link object
/// whose four end properties are exactly these.
pub fn link_query(out: &ResolvedEndpoint, inp: &ResolvedEndpoint) -> (r: PropertyQuery)
    ensures
        r.kind == Some(ObjectType::Link),
        query_pairs(r) == link_pairs(out.model(), inp.model()),
{
    PropertyQuery { kind: Some(ObjectType::Link), pairs: link_pair_vec(out, inp) }
}

proof fn lemma_link_keys_distinct()
    ensures
        "link.output.node"@ != "link.output.port"@,
        "link.output.node"@ != "link.input.node"@,
        "link.output.node"@ != "link.input.port"@,
        "link.output.node"@ != "object.linger"@,
        "link.output.port"@ != "link.input.node"@,
        "link.output.port"@ != "link.input.port"@,
        "link.output.port"@ != "object.linger"@,
        "link.input.node"@ != "link.input.port"@,
        "link.input.node"@ != "object.linger"@,
        "link.input.port"@ != "object.linger"@,
{
    reveal_strlit("link.output.node");
    reveal_strlit("link.output.port");
    reveal_strlit("link.input.node");
    reveal_strlit("link.input.port");
    reveal_strlit("object.linger");
    assert("link.output.node"@[12] != "link.output.port"@[12]);
    assert("link.input.node"@[11] != "link.input.port"@[11]);
}

/// The properties to create a link between two resolved ends with.
pub fn link_properties(out: &ResolvedEndpoint, inp: &ResolvedEndpoint) -> (r: Properties)
    ensures
        r@ == link_create_props(out.model(), inp.model()),
{
    proof {
        lemma_link_keys_distinct();
    }
    let mut r = Properties::new();
    r.insert(String::from_str("link.output.node"), out.node_id.clone());
    r.insert(String::from_str("link.output.port"), decimal_string(out.port_id));
    r.insert(String::from_str("link.input.node"), inp.node_id.clone());
    r.insert(String::from_str("link.input.port"), decimal_string(inp.port_id));
    r.insert(String::from_str("object.linger"), String::from_str("1"));
    assert(r@ =~= link_create_props(out.model(), inp.model()));
    r
}

} // verus!
