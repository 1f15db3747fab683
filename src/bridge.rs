use vstd::prelude::*;
use crate::endpoint::{
    LinkEndpoint,
    endpoint_port,
    ResolveError,
    link_create_props,
    link_pairs,
    link_properties,
    link_query,
    resolve_endpoint,
    resolve_spec,
};
use crate::mirror::{
    RegistryMirror,
    factory_spec,
    find_spec,
    is_first_match,
    lemma_find_after_removing_other,
    matches_query,
    sorted_by_id,
    without_id,
};
use crate::object::{GlobalObject, ObjectType, same_type};
use crate::properties::{Entry, Properties};

verus! {

/// A request from the user interface to the bridge thread.
#[derive(Debug)]
pub enum Command {
    Shutdown,
    CreateLink(LinkEndpoint, LinkEndpoint),
    DestroyLink(LinkEndpoint, LinkEndpoint),
}

/// A command as the contracts see it: endpoints as (key, value) pairs.
pub enum CommandModel {
    Shutdown,
    CreateLink(Entry, Entry),
    DestroyLink(Entry, Entry),
}

impl View for Command {
    type V = CommandModel;

    open spec fn view(&self) -> CommandModel {
        match self {
            Command::Shutdown => CommandModel::Shutdown,
            Command::CreateLink(a, b) => CommandModel::CreateLink(a@, b@),
            Command::DestroyLink(a, b) => CommandModel::DestroyLink(a@, b@),
        }
    }
}

/// What the bridge tells the user interface.
#[derive(Clone, Copy, Debug, PartialEq, Eq, Structural)]
pub enum Notification {
    ObjectAdded(u32),
    ObjectRemoved(u32),
    CoreReady,
}

/// A command that could not be carried out; none of them stops the bridge.
#[derive(Clone, Copy, Debug, PartialEq, Eq, Structural)]
pub enum Fault {
    /// An endpoint no longer names a usable port.
    Unresolved(ResolveError),
    /// The daemon has not yet advertised a factory for links.
    FactoryUnavailable,
    /// The link to destroy is already gone.
    LinkNotFound,
}

/// What the bridge thread is to do with the daemon for one command.
#[derive(Debug)]
pub enum Action {
    /// Ask the daemon's event loop to exit.
    Quit,
    /// Create an object with the named factory and these properties.
    CreateObject { factory: String, props: Properties },
    /// Destroy the global object with this id.
    DestroyGlobal(u32),
    /// Nothing to send; report the fault.
    Report(Fault),
}

pub enum ActionModel {
    Quit,
    CreateObject(Seq<char>, Seq<Entry>),
    DestroyGlobal(u32),
    Report(Fault),
}

impl View for Action {
    type V = ActionModel;

    open spec fn view(&self) -> ActionModel {
        match self {
            Action::Quit => ActionModel::Quit,
            Action::CreateObject { factory, props } => ActionModel::CreateObject(factory@, props@),
            Action::DestroyGlobal(id) => ActionModel::DestroyGlobal(*id),
            Action::Report(f) => ActionModel::Report(*f),
        }
    }
}

/// The action for one command, given the registry as the bridge sees it.
pub open spec fn decide_spec(s: Seq<GlobalObject>, c: CommandModel) -> ActionModel {
    match c {
        CommandModel::Shutdown => ActionModel::Quit,
        CommandModel::CreateLink(a, b) => match (resolve_spec(s, a), resolve_spec(s, b)) {
            (Err(e), _) => ActionModel::Report(Fault::Unresolved(e)),
            (Ok(_), Err(e)) => ActionModel::Report(Fault::Unresolved(e)),
            (Ok(out), Ok(inp)) => match factory_spec(s, ObjectType::Link) {
                None => ActionModel::Report(Fault::FactoryUnavailable),
                Some(f) => ActionModel::CreateObject(f, link_create_props(out, inp)),
            },
        },
        CommandModel::DestroyLink(a, b) => match (resolve_spec(s, a), resolve_spec(s, b)) {
            (Err(e), _) => ActionModel::Report(Fault::Unresolved(e)),
            (Ok(_), Err(e)) => ActionModel::Report(Fault::Unresolved(e)),
            (Ok(out), Ok(inp)) => match find_spec(s, Some(ObjectType::Link), link_pairs(out, inp)) {
                None => ActionModel::Report(Fault::LinkNotFound),
                Some(link) => ActionModel::DestroyGlobal(link.id),
            },
        },
    }
}

/// Decides what one command asks of the daemon.
pub fn decide(mirror: &RegistryMirror, c: &Command) -> (r: Action)
    requires
        mirror.wf(),
    ensures
        r@ == decide_spec(mirror.spec_objects(), c@),
{
    match c {
        Command::Shutdown => Action::Quit,
        Command::CreateLink(a, b) => {
            let out = match resolve_endpoint(mirror, a) {
                Ok(e) => e,
                Err(e) => {
                    return Action::Report(Fault::Unresolved(e));
                },
            };
            let inp = match resolve_endpoint(mirror, b) {
                Ok(e) => e,
                Err(e) => {
                    return Action::Report(Fault::Unresolved(e));
                },
            };
            match mirror.get_factory_name(&ObjectType::Link) {
                None => Action::Report(Fault::FactoryUnavailable),
                Some(f) => Action::CreateObject {
                    factory: f.clone(),
                    props: link_properties(&out, &inp),
                },
            }
        },
        Command::DestroyLink(a, b) => {
            let out = match resolve_endpoint(mirror, a) {
                Ok(e) => e,
                Err(e) => {
                    return Action::Report(Fault::Unresolved(e));
                },
            };
            let inp = match resolve_endpoint(mirror, b) {
                Ok(e) => e,
                Err(e) => {
                    return Action::Report(Fault::Unresolved(e));
                },
            };
            let q = link_query(&out, &inp);
            match mirror.find_by_property(&q) {
                None => Action::Report(Fault::LinkNotFound),
                Some(link) => Action::DestroyGlobal(link.id),
            }
        },
    }
}

/// A link at index `i` of the registry whose four end properties are exactly
/// those of the resolved ends.
pub open spec fn exact_link_at(s: Seq<GlobalObject>, i: int, out: (Seq<char>, u32), inp: (Seq<char>, u32)) -> bool {
    0 <= i < s.len() && matches_query(s[i], Some(ObjectType::Link), link_pairs(out, inp))
}

/// A creation followed at once by a destruction of the same ends, decided
/// against one registry (no news from the daemon between them): the creation
/// destroys nothing, and the destruction targets only a link object that was
/// already there with exactly the four end properties of these ends.
pub proof fn lemma_create_then_destroy_needs_exact_link(s: Seq<GlobalObject>, a: Entry, b: Entry)
    ensures
        !(decide_spec(s, CommandModel::CreateLink(a, b)) is DestroyGlobal),
        decide_spec(s, CommandModel::DestroyLink(a, b)) matches ActionModel::DestroyGlobal(id) ==> (
        exists|i: int|
            #![trigger s[i]]
            resolve_spec(s, a) is Ok && resolve_spec(s, b) is Ok && exact_link_at(
                s,
                i,
                resolve_spec(s, a)->Ok_0,
                resolve_spec(s, b)->Ok_0,
            ) && s[i].id == id && s[i].type_ is Link),
{
    if let (Ok(out), Ok(inp)) = (resolve_spec(s, a), resolve_spec(s, b)) {
        let pairs = link_pairs(out, inp);
        if exists|i: int| is_first_match(s, i, Some(ObjectType::Link), pairs) {
            let i = choose|i: int| is_first_match(s, i, Some(ObjectType::Link), pairs);
            assert(same_type(s[i].type_, ObjectType::Link));
            assert(exact_link_at(s, i, out, inp));
        }
    }
}

/// Two destructions of the same ends, the second decided after the daemon
/// removed the one link they matched: the first destroys that link, the
/// second finds nothing and reports it.
pub proof fn lemma_second_destroy_finds_nothing(s: Seq<GlobalObject>, a: Entry, b: Entry, k: int)
    requires
        sorted_by_id(s),
        resolve_spec(s, a) is Ok,
        resolve_spec(s, b) is Ok,
        exact_link_at(s, k, resolve_spec(s, a)->Ok_0, resolve_spec(s, b)->Ok_0),
        forall|j: int|
            0 <= j < s.len() && j != k ==> !exact_link_at(
                s,
                j,
                resolve_spec(s, a)->Ok_0,
                resolve_spec(s, b)->Ok_0,
            ),
    ensures
        decide_spec(s, CommandModel::DestroyLink(a, b)) == ActionModel::DestroyGlobal(s[k].id),
        decide_spec(without_id(s, s[k].id), CommandModel::DestroyLink(a, b)) == ActionModel::Report(
            Fault::LinkNotFound,
        ),
{
    let out = resolve_spec(s, a)->Ok_0;
    let inp = resolve_spec(s, b)->Ok_0;
    let pairs = link_pairs(out, inp);
    let kind = Some(ObjectType::Link);
    assert forall|j: int| 0 <= j < k implies !matches_query(#[trigger] s[j], kind, pairs) by {
        assert(!exact_link_at(s, j, out, inp));
    }
    assert(is_first_match(s, k, kind, pairs));
    crate::mirror::lemma_first_match_unique(s, k, kind, pairs);
    let id = s[k].id;
    let c = choose|c: int| 0 <= c < s.len() && s[c].id == id;
    assert(c == k) by {
        if c < k {
            assert(s[c].id < s[k].id);
        } else if k < c {
            assert(s[k].id < s[c].id);
        }
    }
    let s2 = s.remove(k);
    assert(without_id(s, id) == s2);
    // the removed object is a link, so the ports that the ends name stay
    assert(same_type(s[k].type_, ObjectType::Link));
    assert(!matches_query(s[k], Some(ObjectType::Port), seq![a]));
    assert(!matches_query(s[k], Some(ObjectType::Port), seq![b]));
    lemma_find_after_removing_other(s, k, Some(ObjectType::Port), seq![a]);
    lemma_find_after_removing_other(s, k, Some(ObjectType::Port), seq![b]);
    assert(endpoint_port(s2, a) == endpoint_port(s, a));
    assert(endpoint_port(s2, b) == endpoint_port(s, b));
    assert(resolve_spec(s2, a) == resolve_spec(s, a));
    assert(resolve_spec(s2, b) == resolve_spec(s, b));
    assert forall|j: int| 0 <= j < s2.len() implies !matches_query(#[trigger] s2[j], kind, pairs) by {
        if j < k {
            assert(s2[j] == s[j]);
            assert(!exact_link_at(s, j, out, inp));
        } else {
            assert(s2[j] == s[j + 1]);
            assert(!exact_link_at(s, j + 1, out, inp));
        }
    }
    assert(!exists|i: int| is_first_match(s2, i, kind, pairs));
}

/// The life of the bridge thread.
#[derive(Clone, Copy, Debug, PartialEq, Eq, Structural)]
pub enum BridgePhase {
    /// Connected; waiting for the daemon's core information.
    Starting,
    /// Executing commands at each poll.
    Running,
    /// Shutdown requested; the daemon's loop is exiting.
    Draining,
    /// The loop has returned; the bridge is not used again.
    Stopped,
}

/// The bridge as the contracts see it: its phase and the commands waiting.
pub struct BridgeModel {
    pub phase: BridgePhase,
    pub pending: Seq<CommandModel>,
}

/// What can happen to the bridge thread.
pub enum BridgeEvent {
    /// The user interface sends a command.
    Enqueue(CommandModel),
    /// The daemon reports its core information.
    CoreInfo,
    /// The daemon advertises or removes an object.
    RegistryChange,
    /// The periodic poll fires.
    Poll,
    /// The daemon's loop has returned.
    LoopExited,
}

pub open spec fn executes(phase: BridgePhase) -> bool {
    phase is Running || phase is Draining
}

pub open spec fn has_shutdown(cs: Seq<CommandModel>) -> bool {
    exists|i: int| 0 <= i < cs.len() && cs[i] is Shutdown
}

/// The commands that an event executes, in the order executed.
pub open spec fn executed_by(b: BridgeModel, e: BridgeEvent) -> Seq<CommandModel> {
    match e {
        BridgeEvent::Poll => if executes(b.phase) {
            b.pending
        } else {
            Seq::empty()
        },
        _ => Seq::empty(),
    }
}

/// The bridge after an event.
pub open spec fn step(b: BridgeModel, e: BridgeEvent) -> BridgeModel {
    match e {
        BridgeEvent::Enqueue(c) => BridgeModel { phase: b.phase, pending: b.pending.push(c) },
        BridgeEvent::CoreInfo => if b.phase is Starting {
            BridgeModel { phase: BridgePhase::Running, pending: b.pending }
        } else {
            b
        },
        BridgeEvent::RegistryChange => b,
        BridgeEvent::Poll => if executes(b.phase) {
            BridgeModel {
                phase: if b.phase is Draining || has_shutdown(b.pending) {
                    BridgePhase::Draining
                } else {
                    BridgePhase::Running
                },
                pending: Seq::empty(),
            }
        } else {
            b
        },
        BridgeEvent::LoopExited => if b.phase is Draining {
            BridgeModel { phase: BridgePhase::Stopped, pending: b.pending }
        } else {
            b
        },
    }
}

/// The bridge after a run of events.
pub open spec fn run(b: BridgeModel, evs: Seq<BridgeEvent>) -> BridgeModel
    decreases evs.len(),
{
    if evs.len() == 0 {
        b
    } else {
        step(run(b, evs.drop_last()), evs.last())
    }
}

/// Every command that a run of events executes, in the order executed.
pub open spec fn executed(b: BridgeModel, evs: Seq<BridgeEvent>) -> Seq<CommandModel>
    decreases evs.len(),
{
    if evs.len() == 0 {
        Seq::empty()
    } else {
        executed(b, evs.drop_last()) + executed_by(run(b, evs.drop_last()), evs.last())
    }
}

/// The commands that a run of events sends, in the order sent.
pub open spec fn enqueued(evs: Seq<BridgeEvent>) -> Seq<CommandModel>
    decreases evs.len(),
{
    if evs.len() == 0 {
        Seq::empty()
    } else {
        match evs.last() {
            BridgeEvent::Enqueue(c) => enqueued(evs.drop_last()).push(c),
            _ => enqueued(evs.drop_last()),
        }
    }
}

/// Commands execute in the order in which they arrived, whatever the daemon
/// reports between them: over any run of events, what was executed followed
/// by what still waits is exactly what was waiting at the start followed by
/// what was sent.
pub proof fn lemma_commands_run_in_arrival_order(b: BridgeModel, evs: Seq<BridgeEvent>)
    ensures
        executed(b, evs) + run(b, evs).pending == b.pending + enqueued(evs),
    decreases evs.len(),
{
    if evs.len() == 0 {
        assert(executed(b, evs) + run(b, evs).pending =~= b.pending + enqueued(evs));
    } else {
        let prev = evs.drop_last();
        lemma_commands_run_in_arrival_order(b, prev);
        let mid = run(b, prev);
        match evs.last() {
            BridgeEvent::Enqueue(c) => {
                assert(executed(b, evs) + run(b, evs).pending =~= (executed(b, prev) + mid.pending).push(c));
                assert(b.pending + enqueued(evs) =~= (b.pending + enqueued(prev)).push(c));
            },
            BridgeEvent::Poll => {
                if executes(mid.phase) {
                    assert(executed(b, evs) + run(b, evs).pending =~= executed(b, prev) + mid.pending);
                } else {
                    assert(executed(b, evs) =~= executed(b, prev));
                }
            },
            _ => {
                assert(executed(b, evs) =~= executed(b, prev));
            },
        }
    }
}

/// The daemon advertised an object: the mirror records it. The bridge's
/// phase and queue are not involved.
pub fn on_global(mirror: &mut RegistryMirror, o: GlobalObject) -> (r: Notification)
    requires
        old(mirror).wf(),
    ensures
        final(mirror).wf(),
        final(mirror).map() == old(mirror).map().insert(o.id, o),
        r == Notification::ObjectAdded(o.id),
{
    let id = o.id;
    mirror.upsert(o);
    Notification::ObjectAdded(id)
}

/// The daemon removed an object: the mirror forgets it.
pub fn on_global_remove(mirror: &mut RegistryMirror, id: u32) -> (r: Notification)
    requires
        old(mirror).wf(),
    ensures
        final(mirror).wf(),
        final(mirror).map() == old(mirror).map().remove(id),
        final(mirror).spec_objects() == without_id(old(mirror).spec_objects(), id),
        r == Notification::ObjectRemoved(id),
{
    mirror.remove(id);
    Notification::ObjectRemoved(id)
}

/// The decisions of the bridge thread, between the daemon's event loop and
/// the queue of commands from the user interface.
pub struct CommandBridge {
    phase: BridgePhase,
    pending: Vec<Command>,
}

impl View for CommandBridge {
    type V = BridgeModel;

    closed spec fn view(&self) -> BridgeModel {
        BridgeModel { phase: self.phase, pending: self.pending@.map_values(|c: Command| c@) }
    }
}

impl CommandBridge {
    pub fn new() -> (r: CommandBridge)
        ensures
            r@.phase == BridgePhase::Starting,
            r@.pending == Seq::<CommandModel>::empty(),
    {
        let r = CommandBridge { phase: BridgePhase::Starting, pending: Vec::new() };
        assert(r@.pending =~= Seq::<CommandModel>::empty());
        r
    }

    pub fn phase(&self) -> (r: BridgePhase)
        ensures
            r == self@.phase,
    {
        self.phase
    }

    pub fn pending_len(&self) -> (r: usize)
        ensures
            r == self@.pending.len(),
    {
        self.pending.len()
    }

    /// Queues a command behind those already waiting.
    pub fn enqueue(&mut self, c: Command)
        ensures
            final(self)@ == step(old(self)@, BridgeEvent::Enqueue(c@)),
    {
        let ghost cm = c@;
        self.pending.push(c);
        assert(self@.pending =~= old(self)@.pending.push(cm));
    }

    /// The daemon's core information arrived: the bridge starts executing
    /// commands, and the user interface learns that the daemon is ready.
    pub fn on_core_info(&mut self) -> (r: Option<Notification>)
        ensures
            final(self)@ == step(old(self)@, BridgeEvent::CoreInfo),
            r == (if old(self)@.phase is Starting {
                Some(Notification::CoreReady)
            } else {
                None::<Notification>
            }),
    {
        match self.phase {
            BridgePhase::Starting => {
                self.phase = BridgePhase::Running;
                Some(Notification::CoreReady)
            },
            _ => None,
        }
    }

    /// The periodic poll: while the bridge runs, every waiting command is
    /// decided, one after the other in arrival order, against the same mirror.
    pub fn poll(&mut self, mirror: &RegistryMirror) -> (r: Vec<Action>)
        requires
            mirror.wf(),
        ensures
            final(self)@ == step(old(self)@, BridgeEvent::Poll),
            r@.len() == executed_by(old(self)@, BridgeEvent::Poll).len(),
            forall|i: int|
                0 <= i < r@.len() ==> (#[trigger] r@[i])@ == decide_spec(
                    mirror.spec_objects(),
                    executed_by(old(self)@, BridgeEvent::Poll)[i],
                ),
    {
        let mut actions: Vec<Action> = Vec::new();
        if !(matches!(self.phase, BridgePhase::Running) || matches!(self.phase, BridgePhase::Draining)) {
            return actions;
        }
        let ghost cmds = old(self)@.pending;
        let mut draining = matches!(self.phase, BridgePhase::Draining);
        let mut i: usize = 0;
        while i < self.pending.len()
            invariant
                0 <= i <= self.pending.len(),
                mirror.wf(),
                self@ == old(self)@,
                cmds == self@.pending,
                actions@.len() == i,
                forall|j: int|
                    0 <= j < i ==> (#[trigger] actions@[j])@ == decide_spec(mirror.spec_objects(), cmds[j]),
                draining == (old(self)@.phase is Draining || exists|j: int| 0 <= j < i && cmds[j] is Shutdown),
            decreases self.pending.len() - i,
        {
            let a = decide(mirror, &self.pending[i]);
            assert(cmds[i as int] == self.pending@[i as int]@);
            if matches!(a, Action::Quit) {
                draining = true;
            }
            actions.push(a);
            i = i + 1;
        }
        self.pending = Vec::new();
        self.phase = if draining {
            BridgePhase::Draining
        } else {
            BridgePhase::Running
        };
        assert(self@.pending =~= Seq::<CommandModel>::empty());
        actions
    }

    /// The daemon's loop has returned after a shutdown request.
    pub fn on_loop_exited(&mut self)
        ensures
            final(self)@ == step(old(self)@, BridgeEvent::LoopExited),
    {
        if matches!(self.phase, BridgePhase::Draining) {
            self.phase = BridgePhase::Stopped;
        }
    }
}

} // verus!
