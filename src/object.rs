use vstd::prelude::*;
use vstd::string::*;
use crate::properties::{Properties, lookup};

verus! {

/// The kind of an object that the daemon advertises.
#[derive(Debug)]
pub enum ObjectType {
    Client,
    Core,
    Device,
    Factory,
    Link,
    Metadata,
    Module,
    Node,
    Port,
    Other(String),
}

/// A number for each kind, so that kinds can be compared in contracts.
pub open spec fn kind_code(t: ObjectType) -> int {
    match t {
        ObjectType::Client => 0,
        ObjectType::Core => 1,
        ObjectType::Device => 2,
        ObjectType::Factory => 3,
        ObjectType::Link => 4,
        ObjectType::Metadata => 5,
        ObjectType::Module => 6,
        ObjectType::Node => 7,
        ObjectType::Port => 8,
        ObjectType::Other(_) => 9,
    }
}

/// Two kinds are the same kind: the same variant, and for `Other` the same name.
pub open spec fn same_type(a: ObjectType, b: ObjectType) -> bool {
    kind_code(a) == kind_code(b) && (a is Other ==> a->Other_0@ == b->Other_0@)
}

/// The protocol's type identifier of a kind.
pub open spec fn interface_name(t: ObjectType) -> Seq<char> {
    match t {
        ObjectType::Client => "PipeWire:Interface:Client"@,
        ObjectType::Core => "PipeWire:Interface:Core"@,
        ObjectType::Device => "PipeWire:Interface:Device"@,
        ObjectType::Factory => "PipeWire:Interface:Factory"@,
        ObjectType::Link => "PipeWire:Interface:Link"@,
        ObjectType::Metadata => "PipeWire:Interface:Metadata"@,
        ObjectType::Module => "PipeWire:Interface:Module"@,
        ObjectType::Node => "PipeWire:Interface:Node"@,
        ObjectType::Port => "PipeWire:Interface:Port"@,
        ObjectType::Other(s) => s@,
    }
}

/// The kind that a type identifier names: a known kind, or `Other` with the
/// identifier itself.
pub open spec fn type_of_name_is(s: Seq<char>, t: ObjectType) -> bool {
    if s == "PipeWire:Interface:Client"@ {
        t is Client
    } else if s == "PipeWire:Interface:Core"@ {
        t is Core
    } else if s == "PipeWire:Interface:Device"@ {
        t is Device
    } else if s == "PipeWire:Interface:Factory"@ {
        t is Factory
    } else if s == "PipeWire:Interface:Link"@ {
        t is Link
    } else if s == "PipeWire:Interface:Metadata"@ {
        t is Metadata
    } else if s == "PipeWire:Interface:Module"@ {
        t is Module
    } else if s == "PipeWire:Interface:Node"@ {
        t is Node
    } else if s == "PipeWire:Interface:Port"@ {
        t is Port
    } else {
        t is Other && t->Other_0@ == s
    }
}

/// The interface version that this client speaks for each known kind.
pub open spec fn spec_client_version(t: ObjectType) -> u32 {
    match t {
        ObjectType::Core => 4,
        _ => 3,
    }
}

fn name_is(s: &String, lit: &str) -> (r: bool)
    ensures
        r == (s@ == lit@),
{
    *s == String::from_str(lit)
}

impl ObjectType {
    pub fn kind_code(&self) -> (r: u8)
        ensures
            r == kind_code(*self),
    {
        match self {
            ObjectType::Client => 0,
            ObjectType::Core => 1,
            ObjectType::Device => 2,
            ObjectType::Factory => 3,
            ObjectType::Link => 4,
            ObjectType::Metadata => 5,
            ObjectType::Module => 6,
            ObjectType::Node => 7,
            ObjectType::Port => 8,
            ObjectType::Other(_) => 9,
        }
    }

    pub fn same_type(&self, other: &ObjectType) -> (r: bool)
        ensures
            r == same_type(*self, *other),
    {
        match (self, other) {
            (ObjectType::Other(a), ObjectType::Other(b)) => *a == *b,
            _ => self.kind_code() == other.kind_code(),
        }
    }

    pub fn is_factory(&self) -> (r: bool)
        ensures
            r == (*self is Factory),
    {
        match self {
            ObjectType::Factory => true,
            _ => false,
        }
    }

    pub fn is_port(&self) -> (r: bool)
        ensures
            r == (*self is Port),
    {
        match self {
            ObjectType::Port => true,
            _ => false,
        }
    }

    /// The kind named by a protocol type identifier.
    pub fn from_str(s: &str) -> (r: ObjectType)
        ensures
            type_of_name_is(s@, r),
    {
        let s = s.to_owned();
        if name_is(&s, "PipeWire:Interface:Client") {
            ObjectType::Client
        } else if name_is(&s, "PipeWire:Interface:Core") {
            ObjectType::Core
        } else if name_is(&s, "PipeWire:Interface:Device") {
            ObjectType::Device
        } else if name_is(&s, "PipeWire:Interface:Factory") {
            ObjectType::Factory
        } else if name_is(&s, "PipeWire:Interface:Link") {
            ObjectType::Link
        } else if name_is(&s, "PipeWire:Interface:Metadata") {
            ObjectType::Metadata
        } else if name_is(&s, "PipeWire:Interface:Module") {
            ObjectType::Module
        } else if name_is(&s, "PipeWire:Interface:Node") {
            ObjectType::Node
        } else if name_is(&s, "PipeWire:Interface:Port") {
            ObjectType::Port
        } else {
            ObjectType::Other(s)
        }
    }

    /// The protocol type identifier of this kind.
    pub fn to_str(&self) -> (r: String)
        ensures
            r@ == interface_name(*self),
    {
        match self {
            ObjectType::Client => String::from_str("PipeWire:Interface:Client"),
            ObjectType::Core => String::from_str("PipeWire:Interface:Core"),
            ObjectType::Device => String::from_str("PipeWire:Interface:Device"),
            ObjectType::Factory => String::from_str("PipeWire:Interface:Factory"),
            ObjectType::Link => String::from_str("PipeWire:Interface:Link"),
            ObjectType::Metadata => String::from_str("PipeWire:Interface:Metadata"),
            ObjectType::Module => String::from_str("PipeWire:Interface:Module"),
            ObjectType::Node => String::from_str("PipeWire:Interface:Node"),
            ObjectType::Port => String::from_str("PipeWire:Interface:Port"),
            ObjectType::Other(s) => s.clone(),
        }
    }

    /// The interface version to bind a known kind with; an unknown kind has none.
    pub fn client_version(&self) -> (r: u32)
        requires
            !(*self is Other),
        ensures
            r == spec_client_version(*self),
    {
        match self {
            ObjectType::Core => 4,
            _ => 3,
        }
    }
}

impl PartialEq for ObjectType {
    fn eq(&self, other: &ObjectType) -> (r: bool) {
        self.same_type(other)
    }
}

impl vstd::std_specs::cmp::PartialEqSpecImpl for ObjectType {
    open spec fn obeys_eq_spec() -> bool {
        true
    }

    open spec fn eq_spec(&self, other: &ObjectType) -> bool {
        same_type(*self, *other)
    }
}

/// Access rights that the daemon grants on an object.
#[derive(Clone, Copy, Debug, PartialEq, Eq, Structural)]
pub struct Permission {
    pub bits: u32,
}

pub const PERM_R: u32 = 0o400;

pub const PERM_W: u32 = 0o200;

pub const PERM_X: u32 = 0o100;

pub const PERM_M: u32 = 0o010;

pub const PERM_ALL: u32 = PERM_R | PERM_W | PERM_X | PERM_M;

impl Permission {
    /// Accepts only the read, write, execute and modify bits.
    pub fn from_bits(bits: u32) -> (r: Option<Permission>)
        ensures
            r is Some <==> bits & !PERM_ALL == 0,
            r matches Some(p) ==> p.bits == bits,
    {
        if bits & !PERM_ALL == 0 {
            Some(Permission { bits })
        } else {
            None
        }
    }

    /// Keeps the read, write, execute and modify bits and drops the others.
    pub fn from_bits_truncate(bits: u32) -> (r: Permission)
        ensures
            r.bits == bits & PERM_ALL,
    {
        Permission { bits: bits & PERM_ALL }
    }

    pub fn contains(&self, other: Permission) -> (r: bool)
        ensures
            r == (self.bits & other.bits == other.bits),
    {
        self.bits & other.bits == other.bits
    }
}

/// An object that the daemon has advertised.
#[derive(Debug)]
pub struct GlobalObject {
    pub id: u32,
    pub permissions: Permission,
    pub type_: ObjectType,
    pub version: u32,
    pub props: Properties,
}

/// The properties that name an object, in order of preference.
pub open spec fn name_keys() -> Seq<Seq<char>> {
    seq![
        "client.name"@,
        "core.name"@,
        "device.name"@,
        "factory.name"@,
        "node.name"@,
        "module.name"@,
        "application.name"@,
        "metadata.name"@,
        "object.path"@,
        "port.alias"@,
    ]
}

/// The `i`-th name key is the first that the object holds, with value `v`.
pub open spec fn first_name_at(o: GlobalObject, i: int, v: Seq<char>) -> bool {
    &&& 0 <= i < name_keys().len()
    &&& lookup(o.props@, name_keys()[i]) == Some(v)
    &&& forall|j: int| 0 <= j < i ==> lookup(o.props@, #[trigger] name_keys()[j]) is None
}

pub open spec fn is_port_with_direction(o: GlobalObject, d: Seq<char>) -> bool {
    o.type_ is Port && lookup(o.props@, "port.direction"@) == Some(d)
}

/// Questions about an advertised object that the user interface asks.
pub struct PipewireObject {}

impl PipewireObject {
    fn name_key(i: usize) -> (r: String)
        requires
            i < 10,
        ensures
            r@ == name_keys()[i as int],
    {
        if i == 0 {
            String::from_str("client.name")
        } else if i == 1 {
            String::from_str("core.name")
        } else if i == 2 {
            String::from_str("device.name")
        } else if i == 3 {
            String::from_str("factory.name")
        } else if i == 4 {
            String::from_str("node.name")
        } else if i == 5 {
            String::from_str("module.name")
        } else if i == 6 {
            String::from_str("application.name")
        } else if i == 7 {
            String::from_str("metadata.name")
        } else if i == 8 {
            String::from_str("object.path")
        } else {
            String::from_str("port.alias")
        }
    }

    /// The object's name: the first of the naming properties that it holds,
    /// with the key it was found under.
    pub fn get_name(object: &GlobalObject) -> (r: Option<(String, String)>)
        ensures
            match r {
                Some((k, v)) => exists|i: int|
                    first_name_at(*object, i, v@) && k@ == #[trigger] name_keys()[i],
                None => forall|j: int|
                    0 <= j < name_keys().len() ==> lookup(object.props@, #[trigger] name_keys()[j]) is None,
            },
    {
        let mut i: usize = 0;
        while i < 10
            invariant
                0 <= i <= 10,
                forall|j: int| 0 <= j < i ==> lookup(object.props@, #[trigger] name_keys()[j]) is None,
            decreases 10 - i,
        {
            let k = Self::name_key(i);
            match object.props.get(&k) {
                Some(v) => {
                    let v = v.clone();
                    assert(first_name_at(*object, i as int, v@));
                    return Some((k, v));
                },
                None => {},
            }
            i = i + 1;
        }
        None
    }

    /// A port through which data comes in.
    pub fn is_input(object: &GlobalObject) -> (r: bool)
        ensures
            r == is_port_with_direction(*object, "in"@),
    {
        object.type_.is_port() && match object.props.get(&String::from_str("port.direction")) {
            Some(d) => *d == String::from_str("in"),
            None => false,
        }
    }

    /// A port through which data goes out.
    pub fn is_output(object: &GlobalObject) -> (r: bool)
        ensures
            r == is_port_with_direction(*object, "out"@),
    {
        object.type_.is_port() && match object.props.get(&String::from_str("port.direction")) {
            Some(d) => *d == String::from_str("out"),
            None => false,
        }
    }
}

} // verus!
