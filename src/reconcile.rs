use crate::config::{entries, name_of, same_settings, well_formed, Config, ScrapeConfig};
use crate::registry::{first_at, has_name, lemma_has_first, position, RegistryError};
use vstd::prelude::*;

verus! {

/// The one change a request asks of the job list.
#[derive(Clone, Debug)]
pub enum Mutation {
    Add(ScrapeConfig),
    Replace(ScrapeConfig),
    Remove(String),
}

/// How a reconciliation ended, when it did not commit.
#[derive(Clone, Copy, Debug, PartialEq, Eq, Structural)]
pub enum Failure {
    ReadFailure,
    ParseFailure,
    DuplicateName,
    NotFound,
    PersistFailure,
    ReloadFailure,
    RollbackFailure,
}

/// Where one request stands in read, mutate, persist, reload, roll back.
/// `snapshot` is the raw document text read at the start.
#[derive(Debug)]
pub enum Phase {
    Reading { mutation: Mutation },
    Parsing { mutation: Mutation, snapshot: String },
    Serializing { snapshot: String },
    Persisting { snapshot: String },
    Reloading { snapshot: String },
    RollingBack,
    Done,
}

/// What the outside world reports back to the machine.
#[derive(Debug)]
pub enum Event {
    /// The raw document text, or `None` when storage could not be read.
    RawRead(Option<String>),
    /// The parsed document, or `None` when the text is malformed.
    Parsed(Option<Config>),
    /// The textual form of the document handed out for serialisation.
    Serialized(String),
    /// Whether the last write was stored.
    Written(bool),
    /// Whether the daemon was found and signalled.
    Reloaded(bool),
}

/// What the machine asks the outside world to do next.
#[derive(Debug)]
pub enum Action {
    ReadRaw,
    Parse(String),
    Serialize(Config),
    Write(String),
    Reload,
    Finish(Result<(), Failure>),
    /// The event was not the one the phase awaits: nothing to do.
    Idle,
}

/// The registry error of a refused mutation, as a failure of the request.
pub open spec fn failure_of(e: RegistryError) -> Failure {
    match e {
        RegistryError::DuplicateName => Failure::DuplicateName,
        RegistryError::NotFound => Failure::NotFound,
    }
}

/// The name that a mutation looks for.
pub open spec fn target_of(m: Mutation) -> Option<Seq<char>> {
    match m {
        Mutation::Add(e) => name_of(e),
        Mutation::Replace(e) => name_of(e),
        Mutation::Remove(n) => Some(n@),
    }
}

/// Why the registry refuses `m` on `d`, if it does.
pub open spec fn refusal(m: Mutation, d: Config) -> Option<RegistryError> {
    let present = has_name(entries(d), target_of(m));
    match m {
        Mutation::Add(_) => if present {
            Some(RegistryError::DuplicateName)
        } else {
            None
        },
        _ => if present {
            None
        } else {
            Some(RegistryError::NotFound)
        },
    }
}

/// `d2` is `d` with the accepted mutation `m` applied.
pub open spec fn outcome(m: Mutation, d: Config, d2: Config) -> bool {
    let s = entries(d);
    &&& same_settings(d2, d)
    &&& match m {
        Mutation::Add(e) => entries(d2) == s.push(e),
        Mutation::Replace(e) => entries(d2) == s.update(position(s, name_of(e)), e),
        Mutation::Remove(n) => entries(d2) == s.remove(position(s, Some(n@))),
    }
}

/// Applies one registry operation to a document.
pub fn apply(doc: &mut Config, m: Mutation) -> (r: Result<(), RegistryError>)
    ensures
        match refusal(m, *old(doc)) {
            Some(err) => r == Err::<(), RegistryError>(err) && *final(doc) == *old(doc),
            None => r is Ok && outcome(m, *old(doc), *final(doc)),
        },
{
    match m {
        Mutation::Add(e) => crate::registry::add(doc, e),
        Mutation::Replace(e) => crate::registry::replace(doc, e),
        Mutation::Remove(n) => crate::registry::remove(doc, &n),
    }
}

/// The step relation: from `p`, on event `e`, the machine moves to `p2` and asks for `a`.
pub open spec fn transition(p: Phase, e: Event, p2: Phase, a: Action) -> bool {
    match (p, e) {
        (Phase::Reading { mutation }, Event::RawRead(None)) => p2 is Done && a == Action::Finish(
            Err(Failure::ReadFailure),
        ),
        (Phase::Reading { mutation }, Event::RawRead(Some(raw))) => p2 == (Phase::Parsing {
            mutation,
            snapshot: raw,
        }) && a == Action::Parse(raw),
        (Phase::Parsing { mutation, snapshot }, Event::Parsed(None)) => p2 is Done && a
            == Action::Finish(Err(Failure::ParseFailure)),
        (Phase::Parsing { mutation, snapshot }, Event::Parsed(Some(doc))) => match refusal(
            mutation,
            doc,
        ) {
            Some(err) => p2 is Done && a == Action::Finish(Err(failure_of(err))),
            None => p2 == (Phase::Serializing { snapshot }) && exists|d2: Config|
                a == Action::Serialize(d2) && outcome(mutation, doc, d2),
        },
        (Phase::Serializing { snapshot }, Event::Serialized(text)) => p2 == (Phase::Persisting {
            snapshot,
        }) && a == Action::Write(text),
        (Phase::Persisting { snapshot }, Event::Written(ok)) => if ok {
            p2 == (Phase::Reloading { snapshot }) && a == Action::Reload
        } else {
            p2 is Done && a == Action::Finish(Err(Failure::PersistFailure))
        },
        (Phase::Reloading { snapshot }, Event::Reloaded(ok)) => if ok {
            p2 is Done && a == Action::Finish(Ok(()))
        } else {
            p2 is RollingBack && a == Action::Write(snapshot)
        },
        (Phase::RollingBack, Event::Written(ok)) => p2 is Done && a == Action::Finish(
            if ok {
                Err(Failure::ReloadFailure)
            } else {
                Err(Failure::RollbackFailure)
            },
        ),
        (p, e) => p2 == p && a is Idle,
    }
}

/// Starts a request: the machine first asks for the raw document text.
pub fn begin(m: Mutation) -> (r: (Phase, Action))
    ensures
        r.0 == (Phase::Reading { mutation: m }),
        r.1 is ReadRaw,
{
    (Phase::Reading { mutation: m }, Action::ReadRaw)
}

/// Takes one event: the next phase, and the action it asks for.
pub fn step(p: Phase, e: Event) -> (r: (Phase, Action))
    ensures
        transition(p, e, r.0, r.1),
{
    match (p, e) {
        (Phase::Reading { mutation }, Event::RawRead(read)) => match read {
            None => (Phase::Done, Action::Finish(Err(Failure::ReadFailure))),
            Some(raw) => {
                let text = raw.clone();
                (Phase::Parsing { mutation, snapshot: raw }, Action::Parse(text))
            },
        },
        (Phase::Parsing { mutation, snapshot }, Event::Parsed(parsed)) => match parsed {
            None => (Phase::Done, Action::Finish(Err(Failure::ParseFailure))),
            Some(doc) => {
                let ghost d0 = doc;
                let mut doc = doc;
                match apply(&mut doc, mutation) {
                    Err(err) => (
                        Phase::Done,
                        Action::Finish(
                            Err(
                                match err {
                                    RegistryError::DuplicateName => Failure::DuplicateName,
                                    RegistryError::NotFound => Failure::NotFound,
                                },
                            ),
                        ),
                    ),
                    Ok(()) => {
                        proof {
                            assert(outcome(mutation, d0, doc));
                        }
                        (Phase::Serializing { snapshot }, Action::Serialize(doc))
                    },
                }
            },
        },
        (Phase::Serializing { snapshot }, Event::Serialized(text)) => (
            Phase::Persisting { snapshot },
            Action::Write(text),
        ),
        (Phase::Persisting { snapshot }, Event::Written(ok)) => if ok {
            (Phase::Reloading { snapshot }, Action::Reload)
        } else {
            (Phase::Done, Action::Finish(Err(Failure::PersistFailure)))
        },
        (Phase::Reloading { snapshot }, Event::Reloaded(ok)) => if ok {
            (Phase::Done, Action::Finish(Ok(())))
        } else {
            (Phase::RollingBack, Action::Write(snapshot))
        },
        (Phase::RollingBack, Event::Written(ok)) => if ok {
            (Phase::Done, Action::Finish(Err(Failure::ReloadFailure)))
        } else {
            (Phase::Done, Action::Finish(Err(Failure::RollbackFailure)))
        },
        (p, e) => (p, Action::Idle),
    }
}

/// A request whose reload fails after its new document was written asks to
/// write back exactly the raw text read at its start, and then reports a reload
/// failure (or a rollback failure when that write is refused), never success.
pub proof fn law_reload_failure_restores(
    m: Mutation,
    raw: String,
    doc: Config,
    text: String,
    restored: bool,
    p1: Phase,
    a1: Action,
    p2: Phase,
    a2: Action,
    p3: Phase,
    a3: Action,
    p4: Phase,
    a4: Action,
    p5: Phase,
    a5: Action,
    p6: Phase,
    a6: Action,
)
    requires
        transition(Phase::Reading { mutation: m }, Event::RawRead(Some(raw)), p1, a1),
        transition(p1, Event::Parsed(Some(doc)), p2, a2),
        refusal(m, doc) is None,
        transition(p2, Event::Serialized(text), p3, a3),
        transition(p3, Event::Written(true), p4, a4),
        transition(p4, Event::Reloaded(false), p5, a5),
        transition(p5, Event::Written(restored), p6, a6),
    ensures
        a3 == Action::Write(text),
        a4 is Reload,
        a5 == Action::Write(raw),
        p6 is Done,
        a6 == Action::Finish(
            Err::<(), Failure>(
                if restored {
                    Failure::ReloadFailure
                } else {
                    Failure::RollbackFailure
                },
            ),
        ),
{
}

/// A mutation that the registry refuses ends the request before anything is
/// written: the machine stops, and a stopped machine asks for nothing more.
pub proof fn law_refusal_writes_nothing(
    m: Mutation,
    raw: String,
    doc: Config,
    p1: Phase,
    a1: Action,
    p2: Phase,
    a2: Action,
)
    requires
        transition(Phase::Parsing { mutation: m, snapshot: raw }, Event::Parsed(Some(doc)), p1, a1),
        refusal(m, doc) is Some,
    ensures
        p1 is Done,
        a1 == Action::Finish(Err::<(), Failure>(failure_of(refusal(m, doc)->0))),
        forall|e: Event, p2: Phase, a2: Action| #[trigger] transition(p1, e, p2, a2) ==> a2 is Idle,
{
}

/// Success is reported only when the daemon accepted a reload.
pub proof fn law_commit_only_after_reload(p: Phase, e: Event, p2: Phase, a: Action)
    requires
        transition(p, e, p2, a),
        a == Action::Finish(Ok::<(), Failure>(())),
    ensures
        p is Reloading,
        e == Event::Reloaded(true),
{
}

/// Every write the machine asks for is either the freshly serialised document
/// or, after a failed reload, the snapshot taken at the start.
pub proof fn law_writes_are_new_or_snapshot(p: Phase, e: Event, p2: Phase, t: String)
    requires
        transition(p, e, p2, Action::Write(t)),
    ensures
        e == Event::Serialized(t) && p is Serializing || e == Event::Reloaded(false) && p
            == (Phase::Reloading { snapshot: t }),
{
}

/// The job a mutation brings in, where it brings one in.
pub open spec fn incoming(m: Mutation) -> Option<ScrapeConfig> {
    match m {
        Mutation::Add(e) => Some(e),
        Mutation::Replace(e) => Some(e),
        Mutation::Remove(_) => None,
    }
}

/// An accepted mutation of a well-formed document, whose incoming job lists
/// at least one target group, yields a well-formed document: names stay
/// unique and every job keeps a target group.
pub proof fn law_accepted_mutation_keeps_well_formed(m: Mutation, d: Config, d2: Config)
    requires
        well_formed(d),
        refusal(m, d) is None,
        outcome(m, d, d2),
        incoming(m) is Some ==> incoming(m)->0.static_configs@.len() > 0,
    ensures
        well_formed(d2),
{
    let s = entries(d);
    let t = entries(d2);
    match m {
        Mutation::Add(e) => {
            crate::registry::law_add_keeps_unique(s, e);
            assert forall|i: int| 0 <= i < t.len() implies (#[trigger] t[i]).static_configs@.len()
                > 0 by {
                if i < s.len() {
                    assert(t[i] == s[i]);
                }
            }
        },
        Mutation::Replace(e) => {
            let p = position(s, name_of(e));
            let k = choose|k: int| 0 <= k < s.len() && name_of(#[trigger] s[k]) == name_of(e);
            lemma_has_first(s, name_of(e), k);
            assert(first_at(s, name_of(e), p));
            assert forall|i: int, j: int|
                0 <= i < t.len() && 0 <= j < t.len() && i != j implies name_of(#[trigger] t[i])
                != name_of(#[trigger] t[j]) by {
                assert(name_of(t[i]) == name_of(s[i]));
                assert(name_of(t[j]) == name_of(s[j]));
            }
            assert forall|i: int| 0 <= i < t.len() implies (#[trigger] t[i]).static_configs@.len()
                > 0 by {
                if i != p {
                    assert(t[i] == s[i]);
                }
            }
        },
        Mutation::Remove(n) => {
            let p = position(s, Some(n@));
            let k = choose|k: int| 0 <= k < s.len() && name_of(#[trigger] s[k]) == Some(n@);
            lemma_has_first(s, Some(n@), k);
            assert(first_at(s, Some(n@), p));
            assert forall|i: int, j: int|
                0 <= i < t.len() && 0 <= j < t.len() && i != j implies name_of(#[trigger] t[i])
                != name_of(#[trigger] t[j]) by {
                let a = if i < p { i } else { i + 1 };
                let b = if j < p { j } else { j + 1 };
                assert(t[i] == s[a]);
                assert(t[j] == s[b]);
            }
            assert forall|i: int| 0 <= i < t.len() implies (#[trigger] t[i]).static_configs@.len()
                > 0 by {
                let a = if i < p { i } else { i + 1 };
                assert(t[i] == s[a]);
            }
        },
    }
}

} // verus!
