use vstd::prelude::*;
use crate::parser::RawPayload;
use crate::resolver::{resolve_payload, resolve_payload_spec, ConfigSnapshot, Rejection, SnapshotView};

verus! {

/// A new version of the raw payload at a store path.
#[derive(Debug)]
pub struct ChangeEvent {
    pub path: String,
    pub version: u64,
    pub raw: RawPayload,
}

/// The last payload refused for a path, kept for observability.
#[derive(Debug)]
pub struct RejectionRecord {
    pub path: String,
    pub version: u64,
    pub rejection: Rejection,
}

pub struct RejectionView {
    pub path: Seq<char>,
    pub version: u64,
    pub rejection: Rejection,
}

impl View for RejectionRecord {
    type V = RejectionView;

    open spec fn view(&self) -> RejectionView {
        RejectionView { path: self.path@, version: self.version, rejection: self.rejection }
    }
}

impl RejectionRecord {
    /// A field-by-field copy.
    pub fn duplicate(&self) -> (r: RejectionRecord)
        ensures
            r@ == self@,
    {
        RejectionRecord { path: self.path.clone(), version: self.version, rejection: self.rejection }
    }
}

/// What handling a change event did.
#[derive(Debug, Clone, Copy, PartialEq, Eq, Structural)]
pub enum Outcome {
    /// The payload was accepted and its snapshot is now the active one.
    Applied,
    /// The event's version is not newer than the active snapshot's; nothing changed.
    Ignored,
    /// The payload was refused; the active snapshot, if any, stays.
    Rejected(Rejection),
}

/// The state of one path: its active snapshot, if one was ever accepted, and the last
/// rejection.
pub struct PathView {
    pub current: Option<SnapshotView>,
    pub last_rejection: Option<RejectionView>,
}

/// The state of a path that no event has reached yet.
pub open spec fn unresolved() -> PathView {
    PathView { current: None, last_rejection: None }
}

/// The state of `path` in the manager's map.
pub open spec fn path_state(m: Map<Seq<char>, PathView>, path: Seq<char>) -> PathView {
    if m.contains_key(path) {
        m[path]
    } else {
        unresolved()
    }
}

/// Whether an event at `version` is stale for state `st`: a snapshot at least as new is active.
pub open spec fn is_stale(st: PathView, version: u64) -> bool {
    st.current is Some && version <= st.current->Some_0.version
}

/// The next state of a path and the outcome, for an event carrying `raw` at `version`.
pub open spec fn step_spec(
    st: PathView,
    path: Seq<char>,
    version: u64,
    raw: &RawPayload,
    accepted_at: u64,
) -> (PathView, Outcome) {
    if is_stale(st, version) {
        (st, Outcome::Ignored)
    } else {
        match resolve_payload_spec(raw, path, version, accepted_at) {
            Ok(s) => (PathView { current: Some(s), last_rejection: st.last_rejection }, Outcome::Applied),
            Err(e) => (
                PathView {
                    current: st.current,
                    last_rejection: Some(RejectionView { path, version, rejection: e }),
                },
                Outcome::Rejected(e),
            ),
        }
    }
}

struct PathEntry {
    path: String,
    current: Option<ConfigSnapshot>,
    last_rejection: Option<RejectionRecord>,
}

impl PathEntry {
    spec fn view(&self) -> PathView {
        PathView {
            current: match self.current {
                Some(s) => Some(s@),
                None => None,
            },
            last_rejection: match self.last_rejection {
                Some(j) => Some(j@),
                None => None,
            },
        }
    }
}

spec fn entries_map(s: Seq<PathEntry>) -> Map<Seq<char>, PathView>
    decreases s.len(),
{
    if s.len() == 0 {
        Map::empty()
    } else {
        entries_map(s.drop_last()).insert(s.last().path@, s.last().view())
    }
}

spec fn unique_paths(s: Seq<PathEntry>) -> bool {
    forall|i: int, j: int| 0 <= i < j < s.len() ==> s[i].path@ != s[j].path@
}

proof fn lemma_entries_map_absent(s: Seq<PathEntry>, k: Seq<char>)
    requires
        forall|i: int| 0 <= i < s.len() ==> s[i].path@ != k,
    ensures
        !entries_map(s).contains_key(k),
    decreases s.len(),
{
    if s.len() > 0 {
        lemma_entries_map_absent(s.drop_last(), k);
    }
}

proof fn lemma_entries_map_at(s: Seq<PathEntry>, i: int)
    requires
        unique_paths(s),
        0 <= i < s.len(),
    ensures
        entries_map(s).contains_key(s[i].path@),
        entries_map(s)[s[i].path@] == s[i].view(),
    decreases s.len(),
{
    if i < s.len() - 1 {
        lemma_entries_map_at(s.drop_last(), i);
    }
}

proof fn lemma_entries_map_update(s: Seq<PathEntry>, i: int, e: PathEntry)
    requires
        unique_paths(s),
        0 <= i < s.len(),
        e.path@ == s[i].path@,
    ensures
        entries_map(s.update(i, e)) == entries_map(s).insert(e.path@, e.view()),
    decreases s.len(),
{
    let t = s.update(i, e);
    if i == s.len() - 1 {
        assert(t.drop_last() =~= s.drop_last());
    } else {
        assert(t.drop_last() =~= s.drop_last().update(i, e));
        lemma_entries_map_update(s.drop_last(), i, e);
    }
    assert(entries_map(t) =~= entries_map(s).insert(e.path@, e.view()));
}

/// Holds the active snapshot of each configuration path and applies change events to it.
pub struct ConfigManager {
    entries: Vec<PathEntry>,
}

impl View for ConfigManager {
    type V = Map<Seq<char>, PathView>;

    closed spec fn view(&self) -> Map<Seq<char>, PathView> {
        entries_map(self.entries@)
    }
}

impl ConfigManager {
    /// Each path has at most one entry.
    pub closed spec fn wf(&self) -> bool {
        unique_paths(self.entries@)
    }

    /// A manager that knows no path yet.
    pub fn new() -> (r: ConfigManager)
        ensures
            r.wf(),
            r@ == Map::<Seq<char>, PathView>::empty(),
    {
        ConfigManager { entries: Vec::new() }
    }

    fn find(&self, path: &String) -> (r: Option<usize>)
        ensures
            match r {
                Some(i) => i < self.entries@.len() && self.entries@[i as int].path@ == path@,
                None => forall|j: int| 0 <= j < self.entries@.len() ==> self.entries@[j].path@ != path@,
            },
    {
        let mut i: usize = 0;
        while i < self.entries.len()
            invariant
                i <= self.entries@.len(),
                forall|j: int| 0 <= j < i ==> self.entries@[j].path@ != path@,
            decreases self.entries@.len() - i,
        {
            if self.entries[i].path == *path {
                return Some(i);
            }
            i = i + 1;
        }
        None
    }

    fn step_entry(entry: PathEntry, ev: ChangeEvent, accepted_at: u64) -> (r: (PathEntry, Outcome))
        requires
            entry.path@ == ev.path@,
        ensures
            r.0.path@ == entry.path@,
            (r.0.view(), r.1) == step_spec(entry.view(), ev.path@, ev.version, &ev.raw, accepted_at),
    {
        let stale = match &entry.current {
            Some(s) => ev.version <= s.version,
            None => false,
        };
        if stale {
            return (entry, Outcome::Ignored);
        }
        let PathEntry { path, current, last_rejection } = entry;
        match resolve_payload(&ev.raw, ev.path, ev.version, accepted_at) {
            Ok(s) => (PathEntry { path, current: Some(s), last_rejection }, Outcome::Applied),
            Err(e) => {
                let record = RejectionRecord { path: path.clone(), version: ev.version, rejection: e };
                (PathEntry { path, current, last_rejection: Some(record) }, Outcome::Rejected(e))
            },
        }
    }

    /// Runs the payload of `ev` through parsing and resolution and, where it is accepted and
    /// newer than the active snapshot of its path, makes it the active one. A refused payload
    /// leaves the active snapshot as it was and becomes the path's last rejection.
    pub fn handle_event(&mut self, ev: ChangeEvent, accepted_at: u64) -> (r: Outcome)
        requires
            old(self).wf(),
        ensures
            final(self).wf(),
            final(self)@ == old(self)@.insert(
                ev.path@,
                step_spec(path_state(old(self)@, ev.path@), ev.path@, ev.version, &ev.raw, accepted_at).0,
            ),
            r == step_spec(path_state(old(self)@, ev.path@), ev.path@, ev.version, &ev.raw, accepted_at).1,
    {
        let ghost old_entries = self.entries@;
        match self.find(&ev.path) {
            Some(i) => {
                proof {
                    lemma_entries_map_at(old_entries, i as int);
                }
                let entry = self.entries.remove(i);
                let (next, out) = Self::step_entry(entry, ev, accepted_at);
                self.entries.insert(i, next);
                proof {
                    assert(self.entries@ =~= old_entries.update(i as int, next));
                    lemma_entries_map_update(old_entries, i as int, next);
                }
                out
            },
            None => {
                proof {
                    lemma_entries_map_absent(old_entries, ev.path@);
                }
                let entry = PathEntry { path: ev.path.clone(), current: None, last_rejection: None };
                let (next, out) = Self::step_entry(entry, ev, accepted_at);
                self.entries.push(next);
                proof {
                    assert(self.entries@.drop_last() =~= old_entries);
                }
                out
            },
        }
    }

    /// The active snapshot of `path`, or `None` while no payload of it was ever accepted.
    pub fn current_config(&self, path: &String) -> (r: Option<ConfigSnapshot>)
        requires
            self.wf(),
        ensures
            match r {
                Some(s) => path_state(self@, path@).current == Some(s@),
                None => path_state(self@, path@).current is None,
            },
    {
        match self.find(path) {
            Some(i) => {
                proof {
                    lemma_entries_map_at(self.entries@, i as int);
                }
                match &self.entries[i].current {
                    Some(s) => Some(s.duplicate()),
                    None => None,
                }
            },
            None => {
                proof {
                    lemma_entries_map_absent(self.entries@, path@);
                }
                None
            },
        }
    }

    /// The last rejection recorded for `path`, if any.
    pub fn last_rejection(&self, path: &String) -> (r: Option<RejectionRecord>)
        requires
            self.wf(),
        ensures
            match r {
                Some(j) => path_state(self@, path@).last_rejection == Some(j@),
                None => path_state(self@, path@).last_rejection is None,
            },
    {
        match self.find(path) {
            Some(i) => {
                proof {
                    lemma_entries_map_at(self.entries@, i as int);
                }
                match &self.entries[i].last_rejection {
                    Some(j) => Some(j.duplicate()),
                    None => None,
                }
            },
            None => {
                proof {
                    lemma_entries_map_absent(self.entries@, path@);
                }
                None
            },
        }
    }
}

} // verus!
