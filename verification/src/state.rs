//! What is remembered between two runs: the registered tunnels, and the one started last.

use crate::clock::{in_calendar, utc_now, Timestamp};
use crate::error::{Failure, Fault, PunchError};
use crate::storage::{path_parts, FileRead, PunchDirs};
use crate::text::{outcome, same_text};
use crate::tunnel_map::{
    ascending, lemma_word_irreflexive, lemma_word_total, lemma_word_transitive, word_before,
    TunnelMap,
};
use crate::types::{RecordView, TunnelRecord, TunnelStatus};
use std::path::PathBuf;
use vstd::prelude::*;
use vstd::string::*;

verus! {

/// What is remembered between two runs.
#[derive(Debug)]
pub struct PersistedState {
    pub recent_domain: Option<String>,
    pub tunnels: TunnelMap,
}

/// The model of [`PersistedState`].
#[verifier::ext_equal]
pub struct StateView {
    pub recent: Option<Seq<char>>,
    pub tunnels: Map<Seq<char>, RecordView>,
}

impl View for PersistedState {
    type V = StateView;

    open spec fn view(&self) -> StateView {
        StateView { recent: self.recent_domain.deep_view(), tunnels: self.tunnels@ }
    }
}

impl DeepView for PersistedState {
    type V = StateView;

    open spec fn deep_view(&self) -> StateView {
        self@
    }
}

impl Default for PersistedState {
    /// Nothing to remember.
    fn default() -> (state: PersistedState)
        ensures
            state@ == StateView::nothing(),
    {
        PersistedState { recent_domain: None, tunnels: TunnelMap::new() }
    }
}

/// `record` as it is seen at `now`, when the processes `live` are running.
pub open spec fn refreshed_record(
    record: RecordView,
    live: Set<u32>,
    now: Timestamp,
) -> RecordView {
    RecordView {
        last_seen_at: Some(now),
        status: match record.pid {
            Some(pid) => if live.contains(pid) {
                TunnelStatus::Running
            } else {
                TunnelStatus::Stopped
            },
            None => record.status,
        },
        ..record
    }
}

/// `record` after its process was stopped at `now`.
pub open spec fn stopped_record(record: RecordView, now: Timestamp) -> RecordView {
    RecordView {
        pid: None,
        status: TunnelStatus::Stopped,
        last_seen_at: Some(now),
        ..record
    }
}

/// `a` was started later than `b`, or it was started and `b` was not.
pub open spec fn started_after(a: RecordView, b: RecordView) -> bool {
    match (a.started_at, b.started_at) {
        (Some(x), Some(y)) => y.before(x),
        (Some(_), None) => true,
        (None, _) => false,
    }
}

/// Whether `a` was started later than `b`, or was started and `b` was not.
pub(crate) fn is_started_after(a: &TunnelRecord, b: &TunnelRecord) -> (yes: bool)
    ensures
        yes == started_after(a@, b@),
{
    match (&a.started_at, &b.started_at) {
        (Some(x), Some(y)) => y.is_before(x),
        (Some(_), None) => true,
        (None, _) => false,
    }
}

/// The tunnel for `a` is newer than the one for `b`: it was started later. Of two that were
/// started at the same time, and of two that were not started, the one whose domain comes later
/// in the order of words is the newer one.
pub open spec fn newer(
    tunnels: Map<Seq<char>, RecordView>,
    a: Seq<char>,
    b: Seq<char>,
) -> bool {
    started_after(tunnels[a], tunnels[b]) || (!started_after(tunnels[b], tunnels[a])
        && word_before(b, a))
}

/// The tunnel for `domain` is the newest of `tunnels`.
pub open spec fn is_newest(tunnels: Map<Seq<char>, RecordView>, domain: Seq<char>) -> bool {
    &&& tunnels.contains_key(domain)
    &&& forall|other: Seq<char>| #[trigger]
        tunnels.contains_key(other) ==> other == domain || newer(tunnels, domain, other)
}

/// The domain of the newest of `tunnels`, if there is a tunnel.
pub open spec fn newest(tunnels: Map<Seq<char>, RecordView>) -> Option<Seq<char>> {
    if exists|domain: Seq<char>| is_newest(tunnels, domain) {
        Some(choose|domain: Seq<char>| is_newest(tunnels, domain))
    } else {
        None
    }
}

impl StateView {
    /// Nothing to remember.
    pub open spec fn nothing() -> StateView {
        StateView { recent: None, tunnels: Map::empty() }
    }

    /// The tunnel for `domain`, if one is registered.
    pub open spec fn find(self, domain: Seq<char>) -> Option<RecordView> {
        if self.tunnels.contains_key(domain) {
            Some(self.tunnels[domain])
        } else {
            None
        }
    }

    /// The tunnel that is remembered as the one started last, if it is registered.
    pub open spec fn latest(self) -> Option<RecordView> {
        match self.recent {
            Some(domain) => self.find(domain),
            None => None,
        }
    }

    /// The state with `record` registered, as the one started last.
    pub open spec fn upserted(self, record: RecordView) -> StateView {
        StateView {
            recent: Some(record.domain),
            tunnels: self.tunnels.insert(record.domain, record),
        }
    }

    /// The state without the tunnel for `domain`. If that was the one started last, the newest
    /// of those that are left takes its place.
    pub open spec fn removed(self, domain: Seq<char>) -> StateView {
        let tunnels = self.tunnels.remove(domain);
        StateView {
            recent: if self.recent == Some(domain) {
                newest(tunnels)
            } else {
                self.recent
            },
            tunnels,
        }
    }

    /// The state as it is seen at `now`, when the processes `live` are running.
    pub open spec fn refreshed(self, live: Set<u32>, now: Timestamp) -> StateView {
        StateView {
            recent: self.recent,
            tunnels: self.tunnels.map_values(|record: RecordView| refreshed_record(record, live, now)),
        }
    }

    /// The state after the tunnel for `domain` was stopped at `now`.
    pub open spec fn stopped(self, domain: Seq<char>, now: Timestamp) -> StateView {
        if self.tunnels.contains_key(domain) {
            StateView {
                recent: self.recent,
                tunnels: self.tunnels.insert(domain, stopped_record(self.tunnels[domain], now)),
            }
        } else {
            self
        }
    }

    /// The tunnel that is remembered as the one started last is registered.
    pub open spec fn consistent(self) -> bool {
        self.recent matches Some(domain) ==> self.tunnels.contains_key(domain)
    }

    /// Each tunnel is registered under its own domain.
    pub open spec fn filed(self) -> bool {
        forall|domain: Seq<char>| #[trigger]
            self.tunnels.contains_key(domain) ==> self.tunnels[domain].domain == domain
    }

    /// The tunnel for `domain` is registered, and no other that is registered was started later.
    pub open spec fn started_last(self, domain: Seq<char>) -> bool {
        &&& self.tunnels.contains_key(domain)
        &&& forall|other: Seq<char>| #[trigger]
            self.tunnels.contains_key(other) ==> !started_after(
                self.tunnels[other],
                self.tunnels[domain],
            )
    }

    /// The tunnel that is remembered as the one started last is the one, and there is none only
    /// where no tunnel is registered.
    pub open spec fn up_to_date(self) -> bool {
        &&& self.tunnels.dom().finite()
        &&& match self.recent {
            Some(domain) => self.started_last(domain),
            None => self.tunnels.dom().is_empty(),
        }
    }

    /// `records` are the registered tunnels in the order of their domains `keys`.
    pub open spec fn lists(self, keys: Seq<Seq<char>>, records: Seq<RecordView>) -> bool {
        &&& ascending(keys)
        &&& keys.to_set() == self.tunnels.dom()
        &&& records == keys.map_values(|key: Seq<char>| self.tunnels[key])
    }
}

/// Where the state is kept.
#[derive(Debug)]
pub struct StateStore {
    dirs: PunchDirs,
}

impl Clone for StateStore {
    fn clone(&self) -> (copy: Self)
        ensures
            copy == *self,
    {
        StateStore { dirs: self.dirs.clone() }
    }
}

/// What a state file holds: nothing, where there is no file.
pub open spec fn loaded(file: FileRead<PersistedState>) -> Result<StateView, Failure> {
    match file {
        FileRead::Missing => Ok(StateView::nothing()),
        FileRead::Unreadable(causes) => Err(
            Failure { kind: Fault::Outside("读取状态文件失败"@), causes: causes.deep_view() },
        ),
        FileRead::Malformed(causes) => Err(
            Failure { kind: Fault::Outside("解析状态文件失败"@), causes: causes.deep_view() },
        ),
        FileRead::Parsed(state) => Ok(state@),
    }
}

/// The state in `file` with `record` registered.
pub open spec fn state_with(file: FileRead<PersistedState>, record: RecordView) -> Result<
    StateView,
    Failure,
> {
    match loaded(file) {
        Ok(state) => Ok(state.upserted(record)),
        Err(error) => Err(error),
    }
}

/// The state in `file` without the tunnel for `domain`, and that tunnel.
pub open spec fn state_without(file: FileRead<PersistedState>, domain: Seq<char>) -> Result<
    (StateView, Option<RecordView>),
    Failure,
> {
    match loaded(file) {
        Ok(state) => Ok((state.removed(domain), state.find(domain))),
        Err(error) => Err(error),
    }
}

impl StateStore {
    /// The directories that the state is kept in.
    pub closed spec fn place(self) -> PunchDirs {
        self.dirs
    }

    /// The store in `dirs`.
    pub fn new(dirs: PunchDirs) -> (store: StateStore)
        ensures
            store.place() == dirs,
    {
        StateStore { dirs }
    }

    /// The directories that the state is kept in.
    pub fn dirs(&self) -> (dirs: &PunchDirs)
        ensures
            *dirs == self.place(),
    {
        &self.dirs
    }

    /// The state, from what came of reading its file.
    pub fn load(file: FileRead<PersistedState>) -> (state: Result<PersistedState, PunchError>)
        ensures
            outcome(state) == loaded(file),
    {
        match file {
            FileRead::Missing => Ok(PersistedState::default()),
            FileRead::Unreadable(causes) => Err(
                PunchError::outside("读取状态文件失败", causes),
            ),
            FileRead::Malformed(causes) => Err(
                PunchError::outside("解析状态文件失败", causes),
            ),
            FileRead::Parsed(state) => Ok(state),
        }
    }

    /// The file that the state is written to.
    pub fn save(&self) -> (file: PathBuf)
        ensures
            path_parts(file) == self.place().entry("state.json"@),
    {
        self.dirs.state_file()
    }

    /// Registers `record`, as the one started last.
    pub fn upsert(state: &mut PersistedState, record: TunnelRecord)
        ensures
            final(state)@ == old(state)@.upserted(record@),
    {
        state.recent_domain = Some(record.domain.clone());
        state.tunnels.insert(record.domain.clone(), record);
    }

    /// Takes the tunnel for `domain` out.
    pub fn remove(state: &mut PersistedState, domain: &str) -> (removed: Option<TunnelRecord>)
        ensures
            final(state)@ == old(state)@.removed(domain@),
            removed.deep_view() == old(state)@.find(domain@),
    {
        let removed = state.tunnels.remove(domain);
        let was_recent = match &state.recent_domain {
            Some(recent) => same_text(recent.as_str(), domain),
            None => false,
        };
        if was_recent {
            state.recent_domain = newest_domain(&state.tunnels);
        }
        removed
    }

    /// The state to write when `record` is registered, from what came of reading the file. Where
    /// the file could not be read or holds no state there is nothing to write.
    pub fn register(file: FileRead<PersistedState>, record: TunnelRecord) -> (state: Result<
        PersistedState,
        PunchError,
    >)
        ensures
            outcome(state) == state_with(file, record@),
    {
        match StateStore::load(file) {
            Ok(loaded) => {
                let mut state = loaded;
                StateStore::upsert(&mut state, record);
                Ok(state)
            },
            Err(error) => Err(error),
        }
    }

    /// The state to write when the tunnel for `domain` is taken out, and that tunnel, from what
    /// came of reading the file. Where the file could not be read or holds no state there is
    /// nothing to write.
    pub fn forget(file: FileRead<PersistedState>, domain: &str) -> (state: Result<
        (PersistedState, Option<TunnelRecord>),
        PunchError,
    >)
        ensures
            outcome(state) == state_without(file, domain@),
    {
        match StateStore::load(file) {
            Ok(loaded) => {
                let mut state = loaded;
                let removed = StateStore::remove(&mut state, domain);
                Ok((state, removed))
            },
            Err(error) => Err(error),
        }
    }

    /// The tunnel for `domain`, if one is registered.
    pub fn find(state: &PersistedState, domain: &str) -> (record: Option<TunnelRecord>)
        ensures
            record.deep_view() == state@.find(domain@),
    {
        state.tunnels.get(domain)
    }

    /// The tunnel that is remembered as the one started last, if it is registered.
    pub fn recent(state: &PersistedState) -> (record: Option<TunnelRecord>)
        ensures
            record.deep_view() == state@.latest(),
    {
        match &state.recent_domain {
            Some(domain) => state.tunnels.get(domain.as_str()),
            None => None,
        }
    }

    /// The registered tunnels, in the order of their domains.
    pub fn list(state: &PersistedState) -> (records: Vec<TunnelRecord>)
        ensures
            state@.lists(state.tunnels.keys(), records.deep_view()),
    {
        state.tunnels.values()
    }

    /// Looks at every tunnel at `now`, when the processes `live` are running.
    pub fn refresh_statuses_at(
        state: &mut PersistedState,
        live: &Vec<u32>,
        now: Timestamp,
    ) -> (records: Vec<TunnelRecord>)
        ensures
            final(state)@ == old(state)@.refreshed(live@.to_set(), now),
            final(state)@.lists(final(state).tunnels.keys(), records.deep_view()),
    {
        let items = state.tunnels.items();
        let ghost keys = state.tunnels.keys();
        let ghost before = state.tunnels@;
        let mut tunnels = TunnelMap::new();
        let mut i: usize = 0;
        proof {
            assert(tunnels@ =~= refreshed_prefix(before, keys, 0, live@.to_set(), now));
        }
        while i < items.len()
            invariant
                i <= items@.len(),
                items@.len() == keys.len(),
                ascending(keys),
                keys.to_set() == before.dom(),
                forall|j: int|
                    0 <= j < items@.len() ==> (#[trigger] items@[j]).0@ == keys[j] && items@[j].1@
                        == before[keys[j]],
                tunnels@ == refreshed_prefix(before, keys, i as int, live@.to_set(), now),
            decreases items@.len() - i,
        {
            let mut record = items[i].1.clone();
            record.last_seen_at = Some(now);
            record.status = match record.pid {
                Some(pid) => if is_live(live, pid) {
                    TunnelStatus::Running
                } else {
                    TunnelStatus::Stopped
                },
                None => record.status,
            };
            proof {
                assert(record@ =~= refreshed_record(before[keys[i as int]], live@.to_set(), now));
                assert(keys.take(i + 1) =~= keys.take(i as int).push(keys[i as int]));
                assert(refreshed_prefix(before, keys, i + 1, live@.to_set(), now)
                    =~= refreshed_prefix(before, keys, i as int, live@.to_set(), now).insert(
                    keys[i as int],
                    record@,
                )) by {
                    assert forall|key: Seq<char>| #[trigger] keys.take(i + 1).contains(key) == (keys.take(
                        i as int,
                    ).contains(key) || key == keys[i as int]) by {
                        if keys.take(i as int).contains(key) {
                            let j = keys.take(i as int).index_of(key);
                            assert(keys.take(i + 1)[j] == key);
                        }
                        assert(keys.take(i + 1)[i as int] == keys[i as int]);
                    }
                }
            }
            tunnels.insert(items[i].0.clone(), record);
            i = i + 1;
        }
        proof {
            assert(keys.take(i as int) =~= keys);
            assert(tunnels@ =~= state@.refreshed(live@.to_set(), now).tunnels) by {
                assert forall|key: Seq<char>| keys.contains(key) == before.dom().contains(key) by {
                    assert(keys.to_set().contains(key) == keys.contains(key));
                }
            }
        }
        state.tunnels = tunnels;
        StateStore::list(state)
    }

    /// Looks at every tunnel now, when the processes `live` are running.
    pub fn refresh_statuses(state: &mut PersistedState, live: &Vec<u32>) -> (records: Vec<
        TunnelRecord,
    >)
        ensures
            exists|now: Timestamp|
                in_calendar(now.sec(), now.nano()) && final(state)@ == #[trigger] old(
                    state,
                )@.refreshed(live@.to_set(), now),
            final(state)@.lists(final(state).tunnels.keys(), records.deep_view()),
    {
        let now = utc_now();
        StateStore::refresh_statuses_at(state, live, now)
    }

    /// Stops the tunnel for `domain` at `now`, when the processes `live` are running: the
    /// tunnel as it is then, and the process to signal.
    pub fn stop_process_at(
        state: &mut PersistedState,
        domain: &str,
        live: &Vec<u32>,
        now: Timestamp,
    ) -> (stopped: Option<(TunnelRecord, Option<u32>)>)
        ensures
            final(state)@ == old(state)@.stopped(domain@, now),
            match old(state)@.find(domain@) {
                Some(record) => stopped matches Some((r, signal)) && r@ == stopped_record(
                    record,
                    now,
                ) && signal == running_process(record, live@.to_set()),
                None => stopped is None,
            },
            old(state)@.find(domain@) matches Some(record) ==> (stopped matches Some((_, signal))
                && match record.pid {
                Some(pid) => signal == (if live@.contains(pid) {
                    Some(pid)
                } else {
                    None
                }),
                None => signal is None,
            }),
    {
        match state.tunnels.get(domain) {
            Some(found) => {
                let mut record = found;
                let signal = match record.pid {
                    Some(pid) => if is_live(live, pid) {
                        Some(pid)
                    } else {
                        None
                    },
                    None => None,
                };
                record.pid = None;
                record.status = TunnelStatus::Stopped;
                record.last_seen_at = Some(now);
                let copy = record.clone();
                state.tunnels.insert(domain.to_owned(), record);
                Some((copy, signal))
            },
            None => None,
        }
    }

    /// Stops the tunnel for `domain` now, when the processes `live` are running: the tunnel as
    /// it is then, and the process to signal.
    pub fn stop_process(
        state: &mut PersistedState,
        domain: &str,
        live: &Vec<u32>,
    ) -> (stopped: Option<(TunnelRecord, Option<u32>)>)
        ensures
            match old(state)@.find(domain@) {
                Some(record) => stopped matches Some((r, signal)) && signal == running_process(
                    record,
                    live@.to_set(),
                ) && exists|now: Timestamp|
                    in_calendar(now.sec(), now.nano()) && r@ == stopped_record(record, now)
                        && final(state)@ == #[trigger] old(state)@.stopped(domain@, now),
                None => stopped is None && final(state)@ == old(state)@,
            },
    {
        let now = utc_now();
        StateStore::stop_process_at(state, domain, live, now)
    }
}

/// The domain of the newest of `tunnels`, if there is a tunnel.
fn newest_domain(tunnels: &TunnelMap) -> (domain: Option<String>)
    ensures
        domain.deep_view() == newest(tunnels@),
{
    let items = tunnels.items();
    let ghost keys = tunnels.keys();
    let ghost map = tunnels@;
    proof {
        assert forall|key: Seq<char>| keys.contains(key) == #[trigger] map.contains_key(key) by {
            assert(keys.to_set().contains(key) == keys.contains(key));
        }
    }
    if items.len() == 0 {
        proof {
            assert forall|key: Seq<char>| !is_newest(map, key) by {
                assert(!keys.contains(key));
            }
        }
        return None;
    }
    let mut best: usize = 0;
    let mut i: usize = 1;
    while i < items.len()
        invariant
            best < i <= items@.len(),
            items@.len() == keys.len(),
            ascending(keys),
            forall|j: int|
                0 <= j < items@.len() ==> (#[trigger] items@[j]).0@ == keys[j] && items@[j].1@
                    == map[keys[j]],
            forall|j: int|
                0 <= j < i && j != best ==> newer(map, keys[best as int], #[trigger] keys[j]),
        decreases items@.len() - i,
    {
        if !is_started_after(&items[best].1, &items[i].1) {
            proof {
                let held = keys[best as int];
                let next = keys[i as int];
                assert(word_before(held, next));
                assert(newer(map, next, held));
                assert forall|j: int| 0 <= j < i + 1 && j != i implies newer(
                    map,
                    next,
                    #[trigger] keys[j],
                ) by {
                    if j != best {
                        lemma_newer(map, next, held, keys[j]);
                    }
                }
            }
            best = i;
        }
        i = i + 1;
    }
    proof {
        let found = keys[best as int];
        assert(keys.contains(found));
        assert forall|other: Seq<char>| #[trigger] map.contains_key(other) implies other == found
            || newer(map, found, other) by {
            assert(keys.contains(other));
            let j = keys.index_of(other);
            assert(keys[j] == other);
        }
        lemma_newest(map, found);
    }
    Some(items[best].0.clone())
}

/// Being newer is transitive, and no tunnel is newer than itself.
proof fn lemma_newer(
    tunnels: Map<Seq<char>, RecordView>,
    a: Seq<char>,
    b: Seq<char>,
    c: Seq<char>,
)
    requires
        newer(tunnels, a, b),
        newer(tunnels, b, c),
    ensures
        newer(tunnels, a, c),
        !newer(tunnels, a, a),
{
    lemma_word_irreflexive(a);
    if word_before(b, a) && word_before(c, b) {
        lemma_word_transitive(c, b, a);
    }
}

/// There is at most one newest tunnel.
proof fn lemma_newest(tunnels: Map<Seq<char>, RecordView>, domain: Seq<char>)
    requires
        is_newest(tunnels, domain),
    ensures
        newest(tunnels) == Some(domain),
{
    let found = choose|d: Seq<char>| is_newest(tunnels, d);
    if found != domain {
        lemma_newer(tunnels, found, domain, found);
    }
}

/// The process behind `record`, if it is running.
pub open spec fn running_process(record: RecordView, live: Set<u32>) -> Option<u32> {
    match record.pid {
        Some(pid) => if live.contains(pid) {
            Some(pid)
        } else {
            None
        },
        None => None,
    }
}

/// The first `n` of the tunnels `tunnels` under `keys`, as they are seen at `now`.
spec fn refreshed_prefix(
    tunnels: Map<Seq<char>, RecordView>,
    keys: Seq<Seq<char>>,
    n: int,
    live: Set<u32>,
    now: Timestamp,
) -> Map<Seq<char>, RecordView> {
    Map::new(
        |key: Seq<char>| keys.take(n).contains(key),
        |key: Seq<char>| refreshed_record(tunnels[key], live, now),
    )
}

/// Whether the process `pid` is among `live`.
fn is_live(live: &Vec<u32>, pid: u32) -> (yes: bool)
    ensures
        yes == live@.to_set().contains(pid),
{
    let mut i: usize = 0;
    while i < live.len()
        invariant
            i <= live@.len(),
            forall|j: int| 0 <= j < i ==> live@[j] != pid,
        decreases live@.len() - i,
    {
        if live[i] == pid {
            return true;
        }
        i = i + 1;
    }
    false
}

/// A tunnel that was just registered is found, and is the one started last.
pub proof fn registered_is_found(state: StateView, record: RecordView)
    ensures
        state.upserted(record).find(record.domain) == Some(record),
        state.upserted(record).latest() == Some(record),
{
}

/// Registering one tunnel does not touch another.
pub proof fn registering_keeps_others(state: StateView, record: RecordView, domain: Seq<char>)
    requires
        domain != record.domain,
    ensures
        state.upserted(record).find(domain) == state.find(domain),
{
}

/// A tunnel that was removed is not found any more, and removing it does not touch another.
pub proof fn removed_is_gone(state: StateView, domain: Seq<char>, other: Seq<char>)
    ensures
        state.removed(domain).find(domain) is None,
        other != domain ==> state.removed(domain).find(other) == state.find(other),
{
}

/// Registering a tunnel for a new domain and removing it again leaves the tunnels that were
/// there before: a session in the foreground leaves none behind.
pub proof fn removing_undoes_registering(state: StateView, record: RecordView)
    requires
        state.find(record.domain) is None,
    ensures
        state.upserted(record).removed(record.domain).tunnels == state.tunnels,
{
    assert(state.upserted(record).removed(record.domain).tunnels =~= state.tunnels);
}

/// Registering a tunnel twice is the same as registering the second one.
pub proof fn later_registration_wins(state: StateView, first: RecordView, second: RecordView)
    requires
        first.domain == second.domain,
    ensures
        state.upserted(first).upserted(second) == state.upserted(second),
{
    assert(state.upserted(first).upserted(second) =~= state.upserted(second));
}

/// Whatever is done to the state, the tunnel that is remembered as the one started last is one
/// that is registered.
pub proof fn operations_keep_consistency(
    state: StateView,
    record: RecordView,
    domain: Seq<char>,
    live: Set<u32>,
    now: Timestamp,
)
    requires
        state.consistent(),
    ensures
        StateView::nothing().consistent(),
        state.upserted(record).consistent(),
        state.removed(domain).consistent(),
        state.refreshed(live, now).consistent(),
        state.stopped(domain, now).consistent(),
{
    let rest = state.tunnels.remove(domain);
    if exists|key: Seq<char>| is_newest(rest, key) {
        let key = choose|key: Seq<char>| is_newest(rest, key);
        lemma_newest(rest, key);
    }
}

/// Whatever is done to the state, each tunnel is registered under its own domain.
pub proof fn operations_keep_filed(
    state: StateView,
    record: RecordView,
    domain: Seq<char>,
    live: Set<u32>,
    now: Timestamp,
)
    requires
        state.filed(),
    ensures
        StateView::nothing().filed(),
        state.upserted(record).filed(),
        state.removed(domain).filed(),
        state.refreshed(live, now).filed(),
        state.stopped(domain, now).filed(),
{
}

/// Where each tunnel is registered under its own domain, a list of the tunnels is one in the
/// order of their domains.
pub proof fn list_is_ascending(
    state: StateView,
    keys: Seq<Seq<char>>,
    records: Seq<RecordView>,
)
    requires
        state.filed(),
        state.lists(keys, records),
    ensures
        ascending(records.map_values(|record: RecordView| record.domain)),
{
    let domains = records.map_values(|record: RecordView| record.domain);
    assert forall|i: int| 0 <= i < keys.len() implies domains[i] == #[trigger] keys[i] by {
        assert(keys.contains(keys[i]));
        assert(keys.to_set().contains(keys[i]));
        assert(state.tunnels.contains_key(keys[i]));
    }
    assert(domains =~= keys);
}

/// While a tunnel is registered there is one to fall back on: removing the one started last
/// leaves none as the last only where none is left, and else the one started last among those
/// that are left.
pub proof fn removal_falls_back(state: StateView, domain: Seq<char>)
    requires
        state.tunnels.dom().finite(),
        state.recent == Some(domain),
    ensures
        match state.removed(domain).recent {
            Some(next) => state.removed(domain).started_last(next),
            None => state.removed(domain).tunnels.dom().is_empty(),
        },
{
    let rest = state.tunnels.remove(domain);
    if !rest.dom().is_empty() {
        lemma_newest_exists(rest, rest.dom());
        let next = choose|d: Seq<char>| is_newest_among(rest, rest.dom(), d);
        assert(is_newest(rest, next));
        lemma_newest(rest, next);
    } else {
        assert forall|d: Seq<char>| !is_newest(rest, d) by {
            assert(!rest.dom().contains(d));
        }
    }
}

/// The tunnel for `domain` is the newest of those for `domains`.
spec fn is_newest_among(
    tunnels: Map<Seq<char>, RecordView>,
    domains: Set<Seq<char>>,
    domain: Seq<char>,
) -> bool {
    &&& domains.contains(domain)
    &&& forall|other: Seq<char>| #[trigger]
        domains.contains(other) ==> other == domain || newer(tunnels, domain, other)
}

/// Of finitely many tunnels one is the newest.
proof fn lemma_newest_exists(tunnels: Map<Seq<char>, RecordView>, domains: Set<Seq<char>>)
    requires
        domains.finite(),
        !domains.is_empty(),
    ensures
        exists|domain: Seq<char>| is_newest_among(tunnels, domains, domain),
    decreases domains.len(),
{
    let first = domains.choose();
    assert(domains.contains(first));
    let rest = domains.remove(first);
    if rest.is_empty() {
        assert forall|other: Seq<char>| #[trigger] domains.contains(other) implies other
            == first by {
            assert(!rest.contains(other));
        }
        assert(is_newest_among(tunnels, domains, first));
    } else {
        lemma_newest_exists(tunnels, rest);
        let held = choose|domain: Seq<char>| is_newest_among(tunnels, rest, domain);
        assert(rest.contains(held));
        lemma_word_total(first, held);
        let best = if newer(tunnels, first, held) {
            first
        } else {
            held
        };
        assert forall|other: Seq<char>| #[trigger] domains.contains(other) implies other == best
            || newer(tunnels, best, other) by {
            if other != first {
                assert(rest.contains(other));
                if best == first && other != held {
                    lemma_newer(tunnels, first, held, other);
                }
            }
        }
        assert(is_newest_among(tunnels, domains, best));
    }
}

/// Something that is done to the state.
pub enum Deed {
    /// A tunnel is registered.
    Register(RecordView),
    /// The tunnel for a domain is taken out.
    Remove(Seq<char>),
    /// The tunnels are looked at, when these processes are running.
    Refresh(Set<u32>, Timestamp),
    /// The tunnel for a domain is stopped.
    Stop(Seq<char>, Timestamp),
}

/// The state after `deeds`, one after the other, from nothing on.
pub open spec fn state_after(deeds: Seq<Deed>) -> StateView
    decreases deeds.len(),
{
    if deeds.len() == 0 {
        StateView::nothing()
    } else {
        let state = state_after(deeds.drop_last());
        match deeds.last() {
            Deed::Register(record) => state.upserted(record),
            Deed::Remove(domain) => state.removed(domain),
            Deed::Refresh(live, now) => state.refreshed(live, now),
            Deed::Stop(domain, now) => state.stopped(domain, now),
        }
    }
}

/// The tunnels are registered in the order in which they were started.
pub open spec fn registered_in_turn(deeds: Seq<Deed>) -> bool {
    forall|i: int, j: int|
        #![trigger deeds[i], deeds[j]]
        0 <= i < j < deeds.len() ==> (deeds[i] matches Deed::Register(a) ==> (
        deeds[j] matches Deed::Register(b) ==> !started_after(a, b)))
}

/// `deeds` hold at `i` the registration of a tunnel that was started as `record` was.
spec fn starts_at(deeds: Seq<Deed>, i: int, record: RecordView) -> bool {
    0 <= i < deeds.len() && (deeds[i] matches Deed::Register(first) && first.started_at
        == record.started_at)
}

/// A tunnel was started when it was registered.
proof fn lemma_start_is_registered(deeds: Seq<Deed>, domain: Seq<char>)
    requires
        state_after(deeds).tunnels.contains_key(domain),
    ensures
        exists|i: int| starts_at(deeds, i, state_after(deeds).tunnels[domain]),
    decreases deeds.len(),
{
    let record = state_after(deeds).tunnels[domain];
    let before = deeds.drop_last();
    let state = state_after(before);
    if deeds.last() matches Deed::Register(last) && last.domain == domain {
        assert(starts_at(deeds, deeds.len() - 1, record));
    } else {
        assert(state.tunnels.contains_key(domain));
        assert(state.tunnels[domain].started_at == record.started_at);
        lemma_start_is_registered(before, domain);
        let i = choose|i: int| starts_at(before, i, state.tunnels[domain]);
        assert(starts_at(deeds, i, record));
    }
}

/// Whatever is done, from nothing on, the tunnel that is remembered as the one started last is
/// the registered one that was started last, as long as the tunnels are registered in the order
/// in which they are started; and each tunnel is registered under its own domain.
pub proof fn latest_was_started_last(deeds: Seq<Deed>)
    requires
        registered_in_turn(deeds),
    ensures
        state_after(deeds).up_to_date(),
        state_after(deeds).filed(),
    decreases deeds.len(),
{
    if deeds.len() > 0 {
        let before = deeds.drop_last();
        let state = state_after(before);
        let after = state_after(deeds);
        assert forall|i: int, j: int|
            #![trigger before[i], before[j]]
            0 <= i < j < before.len() implies (before[i] matches Deed::Register(a) ==> (
            before[j] matches Deed::Register(b) ==> !started_after(a, b))) by {
            assert(before[i] == deeds[i] && before[j] == deeds[j]);
        }
        latest_was_started_last(before);
        match deeds.last() {
            Deed::Register(record) => {
                assert forall|other: Seq<char>| #[trigger]
                    after.tunnels.contains_key(other) implies !started_after(
                    after.tunnels[other],
                    record,
                ) by {
                    if other != record.domain {
                        lemma_start_is_registered(before, other);
                        let i = choose|i: int| starts_at(before, i, state.tunnels[other]);
                        assert(deeds[i] == before[i]);
                        assert(deeds[deeds.len() - 1] == deeds.last());
                    }
                }
                assert(after.started_last(record.domain));
            },
            Deed::Remove(domain) => {
                if state.recent == Some(domain) {
                    removal_falls_back(state, domain);
                }
            },
            Deed::Refresh(live, now) => {
                assert(after.tunnels.dom() =~= state.tunnels.dom());
            },
            Deed::Stop(domain, now) => {},
        }
    }
}

/// A state that was written is loaded again as it was, and where there is no file nothing is
/// remembered.
pub proof fn saved_state_is_loaded(state: PersistedState)
    ensures
        loaded(FileRead::Parsed(state)) == Ok::<StateView, Failure>(state@),
        loaded(FileRead::Missing) == Ok::<StateView, Failure>(StateView::nothing()),
{
}

/// A file that cannot be read, or holds no state, is reported and left as it is: nothing can be
/// registered in it or taken out of it.
pub proof fn broken_state_is_left_alone(
    file: FileRead<PersistedState>,
    record: RecordView,
    domain: Seq<char>,
)
    requires
        file is Unreadable || file is Malformed,
    ensures
        loaded(file) is Err,
        state_with(file, record) is Err,
        state_without(file, domain) is Err,
{
}

/// Looking at the tunnels a second time, with nothing changed, changes nothing.
pub proof fn refreshing_twice(state: StateView, live: Set<u32>, now: Timestamp)
    ensures
        state.refreshed(live, now).refreshed(live, now) == state.refreshed(live, now),
{
    assert(state.refreshed(live, now).refreshed(live, now) =~= state.refreshed(live, now));
}

/// Looking at the tunnels registers none and removes none, and leaves of each one all but the
/// status and the time it was last seen.
pub proof fn refreshing_keeps_tunnels(
    state: StateView,
    live: Set<u32>,
    now: Timestamp,
    domain: Seq<char>,
)
    ensures
        state.refreshed(live, now).tunnels.dom() == state.tunnels.dom(),
        state.find(domain) matches Some(record) ==> state.refreshed(live, now).find(domain)
            matches Some(seen) && seen == (RecordView {
            status: seen.status,
            last_seen_at: Some(now),
            ..record
        }),
{
    assert(state.refreshed(live, now).tunnels.dom() =~= state.tunnels.dom());
}

/// A tunnel that was stopped stays stopped, whatever processes are running when it is looked at.
pub proof fn stopped_stays_stopped(
    state: StateView,
    domain: Seq<char>,
    live: Set<u32>,
    stop: Timestamp,
    now: Timestamp,
)
    requires
        state.find(domain) is Some,
    ensures
        state.stopped(domain, stop).refreshed(live, now).find(domain) matches Some(record)
            && record.status == TunnelStatus::Stopped && record.pid is None,
{
}

/// The process to signal for a tunnel is the one that is recorded of it, where that is running,
/// whatever else is recorded of it; there is none where no process is recorded, or one that is not
/// running.
pub proof fn live_process_is_signalled(record: RecordView, live: Set<u32>, pid: u32)
    ensures
        record.pid == Some(pid) && live.contains(pid) ==> running_process(record, live) == Some(
            pid,
        ),
        record.pid == Some(pid) && !live.contains(pid) ==> running_process(record, live) is None,
        record.pid is None ==> running_process(record, live) is None,
{
}

/// Only the process and what runs decide which process is signalled.
pub proof fn other_fields_do_not_matter(a: RecordView, b: RecordView, live: Set<u32>)
    requires
        a.pid == b.pid,
    ensures
        running_process(a, live) == running_process(b, live),
{
}

/// A tunnel that is looked at runs exactly where its process does, and keeps its status where no
/// process is recorded of it. When it was seen is recorded, and all else stays.
pub proof fn look_tells_what_runs(
    state: StateView,
    live: Set<u32>,
    now: Timestamp,
    domain: Seq<char>,
    record: RecordView,
    pid: u32,
)
    requires
        state.find(domain) == Some(record),
    ensures
        state.refreshed(live, now).find(domain) matches Some(seen) && {
            &&& record.pid == Some(pid) && live.contains(pid) ==> seen.status
                == TunnelStatus::Running
            &&& record.pid == Some(pid) && !live.contains(pid) ==> seen.status
                == TunnelStatus::Stopped
            &&& record.pid is None ==> seen.status == record.status
            &&& seen.last_seen_at == Some(now)
            &&& seen == (RecordView {
                status: seen.status,
                last_seen_at: seen.last_seen_at,
                ..record
            })
        },
        state.refreshed(live, now).recent == state.recent,
{
}

/// Stopping a tunnel takes its process from it, marks it as stopped, and records when; nothing else
/// of it changes, and no other tunnel does. A domain without a tunnel changes nothing.
pub proof fn stopping_touches_one_tunnel(
    state: StateView,
    domain: Seq<char>,
    other: Seq<char>,
    now: Timestamp,
)
    ensures
        state.find(domain) matches Some(record) ==> (state.stopped(domain, now).find(
            domain,
        ) matches Some(after) && after == (RecordView {
            pid: None,
            status: TunnelStatus::Stopped,
            last_seen_at: Some(now),
            ..record
        })),
        other != domain ==> state.stopped(domain, now).find(other) == state.find(other),
        state.find(domain) is None ==> state.stopped(domain, now) == state,
        state.stopped(domain, now).recent == state.recent,
{
}

/// Registering a tunnel makes it the one that is remembered as started last; removing another one
/// than that leaves it remembered.
pub proof fn latest_is_remembered(state: StateView, record: RecordView, domain: Seq<char>)
    ensures
        state.upserted(record).recent == Some(record.domain),
        state.recent != Some(domain) ==> state.removed(domain).recent == state.recent,
        state.recent is None ==> state.latest() is None,
        state.recent == Some(domain) ==> state.latest() == state.find(domain),
{
}

/// What is found for a domain is what the register holds under it.
pub proof fn found_is_what_is_registered(state: StateView, domain: Seq<char>)
    ensures
        state.tunnels.contains_key(domain) ==> state.find(domain) == Some(state.tunnels[domain]),
        !state.tunnels.contains_key(domain) ==> state.find(domain) is None,
        StateView::nothing().find(domain) is None,
        StateView::nothing().latest() is None,
{
}

/// A state file that cannot be read, or holds no state, is told as that, with the causes; one that
/// holds a state is changed by exactly what is registered or taken out.
pub proof fn state_files_are_told(
    causes: Vec<String>,
    state: PersistedState,
    record: RecordView,
    domain: Seq<char>,
)
    ensures
        loaded(FileRead::Unreadable(causes)) == Err::<StateView, Failure>(
            Failure { kind: Fault::Outside("读取状态文件失败"@), causes: causes.deep_view() },
        ),
        loaded(FileRead::Malformed(causes)) == Err::<StateView, Failure>(
            Failure { kind: Fault::Outside("解析状态文件失败"@), causes: causes.deep_view() },
        ),
        state_with(FileRead::Parsed(state), record) == Ok::<StateView, Failure>(
            state@.upserted(record),
        ),
        state_without(FileRead::Parsed(state), domain) == Ok::<
            (StateView, Option<RecordView>),
            Failure,
        >((state@.removed(domain), state@.find(domain))),
{
}

/// One tunnel was started after another where its start is later, or where only it was started.
pub proof fn later_start_comes_after(a: RecordView, b: RecordView, x: Timestamp, y: Timestamp)
    ensures
        a.started_at == Some(x) && b.started_at == Some(y) ==> (started_after(a, b) <==> y.before(
            x,
        )),
        a.started_at is Some && b.started_at is None ==> started_after(a, b),
        a.started_at is None ==> !started_after(a, b),
{
}

/// A list of the tunnels holds each one once, in the order of the domains.
pub proof fn list_is_complete(
    state: StateView,
    keys: Seq<Seq<char>>,
    records: Seq<RecordView>,
    domain: Seq<char>,
)
    requires
        state.lists(keys, records),
    ensures
        records.len() == keys.len(),
        state.tunnels.contains_key(domain) ==> exists|i: int|
            0 <= i < records.len() && #[trigger] keys[i] == domain && records[i]
                == state.tunnels[domain],
        forall|i: int|
            0 <= i < records.len() ==> state.tunnels.contains_key(#[trigger] keys[i]) && records[i]
                == state.tunnels[keys[i]],
        forall|i: int, j: int|
            0 <= i < j < keys.len() ==> word_before(#[trigger] keys[i], #[trigger] keys[j]),
{
    assert forall|i: int| 0 <= i < records.len() implies state.tunnels.contains_key(
        #[trigger] keys[i],
    ) by {
        assert(keys.to_set().contains(keys[i]));
    }
    if state.tunnels.contains_key(domain) {
        assert(keys.to_set().contains(domain));
        let i = choose|i: int| 0 <= i < keys.len() && keys[i] == domain;
        assert(keys[i] == domain);
    }
}

/// Of the tunnels that are left the newest one is that with the latest start, and of several with
/// that start the one whose domain comes last in the order of words.
pub proof fn newest_has_latest_start(
    tunnels: Map<Seq<char>, RecordView>,
    domain: Seq<char>,
    other: Seq<char>,
)
    requires
        newest(tunnels) == Some(domain),
        exists|d: Seq<char>| is_newest(tunnels, d),
        tunnels.contains_key(other),
        other != domain,
    ensures
        tunnels.contains_key(domain),
        !started_after(tunnels[other], tunnels[domain]),
        tunnels[other].started_at == tunnels[domain].started_at ==> word_before(other, domain),
{
    if tunnels[other].started_at == tunnels[domain].started_at {
        assert(!started_after(tunnels[domain], tunnels[other]));
    }
}

} // verus!
