//! Registering the registry's protocol definition exactly once: the task's
//! decisions as a state machine, and a store of definitions in memory.
use vstd::prelude::*;

use crate::schema::{
    definition_post, json_object_members_of, json_string_member_of, json_to_definition,
    protocol_key, structure_key, types_key, ProtocolDefinition, SchemaError,
};

verus! {

/// Where the registration task stands.
#[derive(Clone, Copy, Debug, PartialEq, Eq, Structural)]
pub enum RegistrarState {
    NotChecked,
    Checking,
    AlreadyPresent,
    Registering,
    Registered,
    Failed,
}

/// What the store answered, or that the task was started.
#[derive(Clone, Copy, Debug, PartialEq, Eq, Structural)]
pub enum RegistrarEvent {
    Started,
    /// The query for the definition returned this many entries.
    QueryAnswered(usize),
    QueryFailed,
    WriteAccepted,
    WriteFailed,
}

/// Which store operation failed.
#[derive(Clone, Copy, Debug, PartialEq, Eq, Structural)]
pub enum StoreError {
    Query,
    Write,
}

/// What the task does next.
#[derive(Clone, Copy, Debug, PartialEq, Eq, Structural)]
pub enum RegistrarAction {
    /// Query the store for the definition at the fixed version.
    Query,
    /// Write the definition, tagged with the fixed version.
    Register,
    /// The definition is in the store; the task is done.
    Finish,
    /// A store operation failed; the task ends with this error.
    Abort(StoreError),
    /// The event does not belong to this state; nothing to do.
    Ignore,
}

/// The transition of the registration task on one event.
pub open spec fn step(state: RegistrarState, event: RegistrarEvent) -> (RegistrarState, RegistrarAction) {
    match (state, event) {
        (RegistrarState::NotChecked, RegistrarEvent::Started) => (
            RegistrarState::Checking,
            RegistrarAction::Query,
        ),
        (RegistrarState::Checking, RegistrarEvent::QueryAnswered(n)) => if n > 0 {
            (RegistrarState::AlreadyPresent, RegistrarAction::Finish)
        } else {
            (RegistrarState::Registering, RegistrarAction::Register)
        },
        (RegistrarState::Checking, RegistrarEvent::QueryFailed) => (
            RegistrarState::Failed,
            RegistrarAction::Abort(StoreError::Query),
        ),
        (RegistrarState::Registering, RegistrarEvent::WriteAccepted) => (
            RegistrarState::Registered,
            RegistrarAction::Finish,
        ),
        (RegistrarState::Registering, RegistrarEvent::WriteFailed) => (
            RegistrarState::Failed,
            RegistrarAction::Abort(StoreError::Write),
        ),
        _ => (state, RegistrarAction::Ignore),
    }
}

/// Computes the transition of the registration task on one event.
pub fn next_step(state: RegistrarState, event: RegistrarEvent) -> (r: (RegistrarState, RegistrarAction))
    ensures
        r == step(state, event),
{
    match (state, event) {
        (RegistrarState::NotChecked, RegistrarEvent::Started) => (
            RegistrarState::Checking,
            RegistrarAction::Query,
        ),
        (RegistrarState::Checking, RegistrarEvent::QueryAnswered(n)) => if n > 0 {
            (RegistrarState::AlreadyPresent, RegistrarAction::Finish)
        } else {
            (RegistrarState::Registering, RegistrarAction::Register)
        },
        (RegistrarState::Checking, RegistrarEvent::QueryFailed) => (
            RegistrarState::Failed,
            RegistrarAction::Abort(StoreError::Query),
        ),
        (RegistrarState::Registering, RegistrarEvent::WriteAccepted) => (
            RegistrarState::Registered,
            RegistrarAction::Finish,
        ),
        (RegistrarState::Registering, RegistrarEvent::WriteFailed) => (
            RegistrarState::Failed,
            RegistrarAction::Abort(StoreError::Write),
        ),
        _ => (state, RegistrarAction::Ignore),
    }
}

/// The characters of the fixed protocol version, `0.0.1`.
pub open spec fn fixed_version() -> Seq<char> {
    seq!['0', '.', '0', '.', '1']
}

/// The fixed version under which the definition is registered.
pub fn protocol_version() -> (r: String)
    ensures
        r@ == fixed_version(),
{
    proof {
        reveal_strlit("0.0.1");
    }
    let r = String::from_str("0.0.1");
    proof {
        assert(r@ =~= fixed_version());
    }
    r
}

/// The filter of a query for definitions of a protocol at given versions.
pub struct ProtocolsFilter {
    pub protocol: String,
    pub versions: Vec<String>,
}

/// The registration task of one definition at one version.
pub struct Registrar {
    pub definition: ProtocolDefinition,
    pub version: String,
    pub state: RegistrarState,
}

impl Registrar {
    pub fn new(definition: ProtocolDefinition, version: String) -> (r: Registrar)
        ensures
            r.definition == definition,
            r.version == version,
            r.state == RegistrarState::NotChecked,
    {
        Registrar { definition, version, state: RegistrarState::NotChecked }
    }

    /// The task for the definition read from `schema`, at the fixed version.
    pub fn from_schema(schema: &str) -> (r: Result<Registrar, SchemaError>)
        ensures
            definition_post(
                json_string_member_of(schema@, protocol_key()),
                json_object_members_of(schema@, structure_key()),
                json_object_members_of(schema@, types_key()),
                match r {
                    Ok(t) => Ok(t.definition),
                    Err(e) => Err(e),
                },
            ),
            r is Ok ==> r->Ok_0.version@ == fixed_version() && r->Ok_0.state
                == RegistrarState::NotChecked,
    {
        match json_to_definition(schema) {
            Ok(definition) => Ok(Registrar::new(definition, protocol_version())),
            Err(e) => Err(e),
        }
    }

    /// The (protocol, version) pair that the task registers.
    pub open spec fn key(&self) -> (Seq<char>, Seq<char>) {
        (self.definition.protocol@, self.version@)
    }

    /// The query filter: the definition's protocol, at the task's version only.
    pub fn filter(&self) -> (f: ProtocolsFilter)
        ensures
            f.protocol@ == self.definition.protocol@,
            f.versions@.len() == 1,
            f.versions@[0]@ == self.version@,
    {
        ProtocolsFilter { protocol: self.definition.protocol.clone(), versions: vec![self.version.clone()] }
    }

    /// Moves the task on by one event and returns what to do next.
    pub fn handle(&mut self, event: RegistrarEvent) -> (a: RegistrarAction)
        ensures
            (final(self).state, a) == step(old(self).state, event),
            final(self).definition == old(self).definition,
            final(self).version == old(self).version,
    {
        let (state, action) = next_step(self.state, event);
        self.state = state;
        action
    }
}

/// A stored definition, by protocol and version.
pub struct ProtocolEntry {
    pub protocol: String,
    pub version: String,
}

/// The (protocol, version) pairs of stored entries.
pub open spec fn entries_view(s: Seq<ProtocolEntry>) -> Seq<(Seq<char>, Seq<char>)> {
    s.map_values(|e: ProtocolEntry| (e.protocol@, e.version@))
}

/// How many entries of `s` are `key`.
pub open spec fn count_matching(s: Seq<(Seq<char>, Seq<char>)>, key: (Seq<char>, Seq<char>)) -> nat
    decreases s.len(),
{
    if s.len() == 0 {
        0
    } else {
        count_matching(s.drop_last(), key) + if s.last() == key {
            1nat
        } else {
            0nat
        }
    }
}

/// The store after one run of the registration task for `key`: unchanged if
/// `key` is present, else with `key` added.
pub open spec fn registered(s: Seq<(Seq<char>, Seq<char>)>, key: (Seq<char>, Seq<char>)) -> Seq<
    (Seq<char>, Seq<char>),
> {
    if count_matching(s, key) > 0 {
        s
    } else {
        s.push(key)
    }
}

/// How many writes one run of the registration task for `key` makes.
pub open spec fn writes_for(s: Seq<(Seq<char>, Seq<char>)>, key: (Seq<char>, Seq<char>)) -> nat {
    if count_matching(s, key) > 0 {
        0
    } else {
        1
    }
}

/// A store of protocol definitions held in memory.
pub struct MemoryStore {
    pub entries: Vec<ProtocolEntry>,
}

impl MemoryStore {
    pub fn new() -> (r: MemoryStore)
        ensures
            r.entries@.len() == 0,
    {
        MemoryStore { entries: Vec::new() }
    }

    /// The number of stored entries for `protocol` at `version`.
    pub fn query(&self, protocol: &String, version: &String) -> (n: usize)
        ensures
            n == count_matching(entries_view(self.entries@), (protocol@, version@)),
    {
        let key = Ghost((protocol@, version@));
        let mut n: usize = 0;
        let mut i: usize = 0;
        while i < self.entries.len()
            invariant
                i <= self.entries@.len(),
                n <= i,
                key@ == (protocol@, version@),
                n == count_matching(entries_view(self.entries@).take(i as int), key@),
            decreases self.entries@.len() - i,
        {
            let e = &self.entries[i];
            let same_protocol = e.protocol.eq(protocol);
            let same_version = e.version.eq(version);
            let matched = same_protocol && same_version;
            proof {
                let all = entries_view(self.entries@);
                let next = all.take(i + 1);
                assert(next.drop_last() =~= all.take(i as int));
                assert(next.last() == all[i as int]);
                assert(all[i as int] == (e.protocol@, e.version@));
                assert(matched == (next.last() == key@));
                assert(count_matching(next, key@) == count_matching(all.take(i as int), key@) + if matched {
                    1nat
                } else {
                    0nat
                });
            }
            if matched {
                n = n + 1;
            }
            i = i + 1;
        }
        proof {
            assert(entries_view(self.entries@).take(i as int) =~= entries_view(self.entries@));
        }
        n
    }

    /// Stores a definition of `protocol` at `version`.
    pub fn insert(&mut self, protocol: String, version: String)
        ensures
            entries_view(final(self).entries@) == entries_view(old(self).entries@).push(
                (protocol@, version@),
            ),
    {
        let ghost p = protocol@;
        let ghost v = version@;
        self.entries.push(ProtocolEntry { protocol, version });
        proof {
            assert(entries_view(self.entries@) =~= entries_view(old(self).entries@).push((p, v)));
        }
    }
}

/// Runs a fresh registration task against `store`: queries it, and writes
/// the definition only when the query comes back empty. Returns the number
/// of writes.
pub fn register_once(store: &mut MemoryStore, registrar: &mut Registrar) -> (writes: usize)
    requires
        old(registrar).state == RegistrarState::NotChecked,
    ensures
        entries_view(final(store).entries@) == registered(
            entries_view(old(store).entries@),
            old(registrar).key(),
        ),
        writes == writes_for(entries_view(old(store).entries@), old(registrar).key()),
        final(registrar).state == if writes == 0 {
            RegistrarState::AlreadyPresent
        } else {
            RegistrarState::Registered
        },
        final(registrar).definition == old(registrar).definition,
        final(registrar).version == old(registrar).version,
{
    let first = registrar.handle(RegistrarEvent::Started);
    assert(first == RegistrarAction::Query);
    let found = store.query(&registrar.definition.protocol, &registrar.version);
    let next = registrar.handle(RegistrarEvent::QueryAnswered(found));
    if found > 0 {
        assert(next == RegistrarAction::Finish);
        0
    } else {
        assert(next == RegistrarAction::Register);
        store.insert(registrar.definition.protocol.clone(), registrar.version.clone());
        let last = registrar.handle(RegistrarEvent::WriteAccepted);
        assert(last == RegistrarAction::Finish);
        1
    }
}

/// Registering twice against an empty store leaves exactly one entry for
/// the key, and the second run writes nothing.
pub proof fn lemma_registration_idempotent(key: (Seq<char>, Seq<char>))
    ensures
        count_matching(registered(registered(Seq::empty(), key), key), key) == 1,
        writes_for(registered(Seq::empty(), key), key) == 0,
{
    let once = registered(Seq::<(Seq<char>, Seq<char>)>::empty(), key);
    assert(count_matching(Seq::<(Seq<char>, Seq<char>)>::empty(), key) == 0);
    assert(once.drop_last() =~= Seq::<(Seq<char>, Seq<char>)>::empty());
    assert(count_matching(once, key) == 1);
}

/// When the store already holds the key, a run writes nothing and leaves
/// the store as it was.
pub proof fn lemma_present_means_no_write(s: Seq<(Seq<char>, Seq<char>)>, key: (Seq<char>, Seq<char>))
    requires
        count_matching(s, key) > 0,
    ensures
        writes_for(s, key) == 0,
        registered(s, key) == s,
{
}

} // verus!
