//! Pods, their activity log, and the index of a creator's pods.

use crate::errors::OridionError;
use crate::keys::{null_key, zero_key};
use crate::variables::{ACTIVITY_LOG_CAPACITY, MAX_USER_META_PODS};
use vstd::prelude::*;

verus! {

/// The index of the pods that one creator has launched.
#[derive(Clone, Debug, PartialEq, Eq)]
pub struct PodMeta {
    /// The ids of the creator's pods, oldest first.
    pub ids: Vec<u16>,
    /// When the index was first used; 0 means never.
    pub created_at: i64,
    /// The creator the index belongs to.
    pub authority: [u8; 32],
}

/// The mathematical value of a `PodMeta`.
pub struct PodMetaView {
    pub ids: Seq<u16>,
    pub created_at: i64,
    pub authority: [u8; 32],
}

impl View for PodMeta {
    type V = PodMetaView;

    open spec fn view(&self) -> PodMetaView {
        PodMetaView { ids: self.ids@, created_at: self.created_at, authority: self.authority }
    }
}

/// The newest `limit` items of a sequence.
pub open spec fn keep_last<T>(items: Seq<T>, limit: int) -> Seq<T> {
    if items.len() <= limit {
        items
    } else {
        items.subrange(items.len() - limit, items.len() as int)
    }
}

/// A sequence without the first occurrence of `value`, if there is one.
pub open spec fn without_first(ids: Seq<u16>, value: u16) -> Seq<u16> {
    match ids.index_of_first(value) {
        Some(i) => ids.remove(i),
        None => ids,
    }
}

impl PodMetaView {
    /// The index after a launch by `creator` of pod `id` at `now`: a fresh index
    /// is claimed, and an id that is not yet listed is added, the oldest ids
    /// giving way beyond the limit.
    pub open spec fn recorded(self, creator: [u8; 32], id: u16, now: i64) -> PodMetaView {
        PodMetaView {
            ids: if self.ids.contains(id) {
                self.ids
            } else {
                keep_last(self.ids.push(id), MAX_USER_META_PODS as int)
            },
            created_at: if self.created_at == 0 {
                now
            } else {
                self.created_at
            },
            authority: if self.created_at == 0 {
                creator
            } else {
                self.authority
            },
        }
    }
}

impl PodMeta {
    /// An index that was never used.
    pub fn new() -> (meta: PodMeta)
        ensures
            meta@.ids == Seq::<u16>::empty(),
            meta@.created_at == 0,
            meta@.authority == zero_key(),
    {
        PodMeta { ids: Vec::new(), created_at: 0, authority: null_key() }
    }

    /// Drops the oldest ids until no more than the limit are left.
    pub fn prune_ids(&mut self)
        ensures
            final(self)@ == (PodMetaView {
                ids: keep_last(old(self)@.ids, MAX_USER_META_PODS as int),
                ..old(self)@
            }),
    {
        let ghost before = self.ids@;
        assert(before.len() == self.ids.len());
        let mut dropped: usize = 0;
        while self.ids.len() > MAX_USER_META_PODS
            invariant
                dropped <= before.len() <= usize::MAX,
                dropped == 0 || self.ids@.len() >= MAX_USER_META_PODS,
                self.created_at == old(self).created_at,
                self.authority == old(self).authority,
                self.ids@ == before.subrange(dropped as int, before.len() as int),
            decreases self.ids.len(),
        {
            let _ = self.ids.remove(0);
            dropped += 1;
            assert(self.ids@ =~= before.subrange(dropped as int, before.len() as int));
        }
        assert(self.ids@ =~= keep_last(before, MAX_USER_META_PODS as int));
    }

    /// Where `id` first occurs in the index, if it does.
    pub fn position(&self, id: u16) -> (found: Option<usize>)
        ensures
            match found {
                Some(i) => self@.ids.index_of_first(id) == Some(i as int) && i < self@.ids.len(),
                None => self@.ids.index_of_first(id) is None,
            },
            found is Some <==> self@.ids.contains(id),
    {
        let mut i: usize = 0;
        while i < self.ids.len()
            invariant
                i <= self.ids.len(),
                forall|j: int| 0 <= j < i ==> self.ids@[j] != id,
            decreases self.ids.len() - i,
        {
            if self.ids[i] == id {
                proof {
                    self.ids@.index_of_first_ensures(id);
                }
                return Some(i);
            }
            i += 1;
        }
        proof {
            self.ids@.index_of_first_ensures(id);
        }
        None
    }

    /// Removes the first occurrence of `id`, if there is one.
    pub fn remove_id(&mut self, id: u16)
        ensures
            final(self)@ == (PodMetaView { ids: without_first(old(self)@.ids, id), ..old(self)@ }),
    {
        match self.position(id) {
            Some(pos) => {
                let _ = self.ids.remove(pos);
            },
            None => {},
        }
    }

    /// Records a launch of pod `id` by `creator` at `now`.
    pub fn record_launch(&mut self, creator: [u8; 32], id: u16, now: i64)
        ensures
            final(self)@ == old(self)@.recorded(creator, id, now),
    {
        if self.created_at == 0 {
            self.authority = creator;
            self.created_at = now;
        }
        if self.position(id).is_none() {
            self.ids.push(id);
            self.prune_ids();
        }
    }
}

/// What a pod did in a step that its activity log records.
#[derive(Clone, Copy, Debug, PartialEq, Eq, Structural)]
pub enum ActivityAction {
    Launch,
    Hop,
    Star2,
    Star3,
    Scatter,
}

impl ActivityAction {
    /// The number under which the action is stored.
    pub open spec fn code_spec(self) -> u8 {
        match self {
            ActivityAction::Launch => 0,
            ActivityAction::Hop => 1,
            ActivityAction::Star2 => 2,
            ActivityAction::Star3 => 3,
            ActivityAction::Scatter => 4,
        }
    }

    /// The number under which the action is stored.
    pub fn code(self) -> (c: u8)
        ensures
            c == self.code_spec(),
    {
        match self {
            ActivityAction::Launch => 0,
            ActivityAction::Hop => 1,
            ActivityAction::Star2 => 2,
            ActivityAction::Star3 => 3,
            ActivityAction::Scatter => 4,
        }
    }
}

/// One line of a pod's activity log.
#[derive(Clone, Debug, PartialEq, Eq)]
pub struct ActivityEntry {
    /// The code of the action.
    pub action: u8,
    /// The name of the planet the step led to.
    pub to: String,
    /// When the step was taken.
    pub time: i64,
}

/// A unit of value in transit, owned by its creator until it lands.
#[derive(Clone, Debug, PartialEq, Eq)]
pub struct Pod {
    /// The address under which the pod is stored; planets are locked under it.
    pub key: [u8; 32],
    pub account_type: u8,
    /// 0 while the slot is vacant, 1 once a pod has been launched into it.
    pub version: u8,
    /// 1 delayed, 2 instant, 3 manual.
    pub mode: u8,
    /// What is due next: 0 a hop, 1 the landing.
    pub next_process: u8,
    /// What was done last: 0 the launch, 1 a hop.
    pub last_process: u8,
    /// 1 between the start of a mix and its end, else 0.
    pub is_in_transit: u8,
    /// The pod's number among those of its creator.
    pub id: u16,
    /// How many steps the pod has completed.
    pub hops: u16,
    /// The delay the pod was launched with, in seconds.
    pub delay: u32,
    /// When the next step is due (delayed pods only).
    pub next_process_at: i64,
    /// When the pod is to land.
    pub land_at: i64,
    /// When the pod was launched.
    pub created_at: i64,
    /// When the last step was taken.
    pub last_process_at: i64,
    /// The amount the pod carries.
    pub lamports: u64,
    /// The planet the pod rests on.
    pub location: [u8; 32],
    /// The address the amount is to land at.
    pub destination: [u8; 32],
    /// The digest of the emergency passcode.
    pub passcode_hash: [u8; 32],
    /// The creator of the pod.
    pub authority: [u8; 32],
    /// The newest steps of the pod, oldest first.
    pub log: Vec<ActivityEntry>,
}

/// The mathematical value of a `Pod`.
pub struct PodView {
    pub key: [u8; 32],
    pub account_type: u8,
    pub version: u8,
    pub mode: u8,
    pub next_process: u8,
    pub last_process: u8,
    pub is_in_transit: u8,
    pub id: u16,
    pub hops: u16,
    pub delay: u32,
    pub next_process_at: i64,
    pub land_at: i64,
    pub created_at: i64,
    pub last_process_at: i64,
    pub lamports: u64,
    pub location: [u8; 32],
    pub destination: [u8; 32],
    pub passcode_hash: [u8; 32],
    pub authority: [u8; 32],
    pub log: Seq<ActivityEntry>,
}

impl View for Pod {
    type V = PodView;

    open spec fn view(&self) -> PodView {
        PodView {
            key: self.key,
            account_type: self.account_type,
            version: self.version,
            mode: self.mode,
            next_process: self.next_process,
            last_process: self.last_process,
            is_in_transit: self.is_in_transit,
            id: self.id,
            hops: self.hops,
            delay: self.delay,
            next_process_at: self.next_process_at,
            land_at: self.land_at,
            created_at: self.created_at,
            last_process_at: self.last_process_at,
            lamports: self.lamports,
            location: self.location,
            destination: self.destination,
            passcode_hash: self.passcode_hash,
            authority: self.authority,
            log: self.log@,
        }
    }
}

/// The log after one more entry: once it is full, the oldest entry goes and the
/// others move down by one.
pub open spec fn log_append(log: Seq<ActivityEntry>, entry: ActivityEntry) -> Seq<ActivityEntry> {
    keep_last(log.push(entry), ACTIVITY_LOG_CAPACITY as int)
}

/// The log after the entries of `entries` are appended one by one.
pub open spec fn log_append_all(log: Seq<ActivityEntry>, entries: Seq<ActivityEntry>) -> Seq<
    ActivityEntry,
>
    decreases entries.len(),
{
    if entries.len() == 0 {
        log
    } else {
        log_append_all(log_append(log, entries[0]), entries.drop_first())
    }
}

/// A log never holds more entries than its capacity after an append, and its last
/// entry is the one that was appended.
pub proof fn lemma_log_append_bounded(log: Seq<ActivityEntry>, entry: ActivityEntry)
    ensures
        log_append(log, entry).len() <= ACTIVITY_LOG_CAPACITY,
        log_append(log, entry).len() >= 1,
        log_append(log, entry).last() == entry,
{
}

/// Appending entries one by one to a log within its capacity leaves the newest ten
/// of all entries, in their order.
pub proof fn lemma_log_keeps_newest(log: Seq<ActivityEntry>, entries: Seq<ActivityEntry>)
    requires
        log.len() <= ACTIVITY_LOG_CAPACITY,
    ensures
        log_append_all(log, entries) == keep_last(log + entries, ACTIVITY_LOG_CAPACITY as int),
        log_append_all(log, entries).len() <= ACTIVITY_LOG_CAPACITY,
    decreases entries.len(),
{
    if entries.len() == 0 {
        assert(log + entries =~= log);
    } else {
        let next = log_append(log, entries[0]);
        let rest = entries.drop_first();
        lemma_log_keeps_newest(next, rest);
        assert(keep_last(next + rest, ACTIVITY_LOG_CAPACITY as int) =~= keep_last(
            log + entries,
            ACTIVITY_LOG_CAPACITY as int,
        ));
    }
}

/// After eleven appends to an empty log the first entry is gone, and the second
/// to the eleventh stand in places 0 to 9.
pub proof fn lemma_eleven_appends(entries: Seq<ActivityEntry>)
    requires
        entries.len() == 11,
    ensures
        log_append_all(Seq::<ActivityEntry>::empty(), entries).len() == 10,
        forall|i: int|
            0 <= i < 10 ==> log_append_all(Seq::<ActivityEntry>::empty(), entries)[i] == entries[i
                + 1],
{
    lemma_log_keeps_newest(Seq::<ActivityEntry>::empty(), entries);
    assert(Seq::<ActivityEntry>::empty() + entries =~= entries);
}

impl PodView {
    /// The pod is well formed: its log is within its capacity, and its flags for
    /// transit and for the next step hold 0 or 1.
    pub open spec fn wf(self) -> bool {
        self.log.len() <= ACTIVITY_LOG_CAPACITY && self.is_in_transit <= 1 && self.next_process <= 1
    }

    /// The slot holds no pod: it can be launched into.
    pub open spec fn is_vacant(self) -> bool {
        self.version == 0 && self.destination == zero_key()
    }

    /// The pod with one more entry in its log.
    pub open spec fn logged(self, action: u8, to: String, time: i64) -> PodView {
        PodView { log: log_append(self.log, ActivityEntry { action, to, time }), ..self }
    }

    /// The pod with a log that holds the launch and nothing else.
    pub open spec fn log_started(self, to: String, time: i64) -> PodView {
        PodView {
            log: seq![ActivityEntry { action: ActivityAction::Launch.code_spec(), to, time }],
            ..self
        }
    }

    /// The vacant slot stored under `key`.
    pub open spec fn vacant(key: [u8; 32]) -> PodView {
        PodView {
            key,
            account_type: 0,
            version: 0,
            mode: 0,
            next_process: 0,
            last_process: 0,
            is_in_transit: 0,
            id: 0,
            hops: 0,
            delay: 0,
            next_process_at: 0,
            land_at: 0,
            created_at: 0,
            last_process_at: 0,
            lamports: 0,
            location: zero_key(),
            destination: zero_key(),
            passcode_hash: zero_key(),
            authority: zero_key(),
            log: Seq::empty(),
        }
    }
}

impl Pod {
    /// A vacant slot stored under `key`.
    pub fn vacant(key: [u8; 32]) -> (pod: Pod)
        ensures
            pod@ == PodView::vacant(key),
            pod@.is_vacant(),
            pod@.wf(),
    {
        Pod {
            key,
            account_type: 0,
            version: 0,
            mode: 0,
            next_process: 0,
            last_process: 0,
            is_in_transit: 0,
            id: 0,
            hops: 0,
            delay: 0,
            next_process_at: 0,
            land_at: 0,
            created_at: 0,
            last_process_at: 0,
            lamports: 0,
            location: null_key(),
            destination: null_key(),
            passcode_hash: null_key(),
            authority: null_key(),
            log: Vec::new(),
        }
    }

    /// Starts the activity log with the launch towards the planet `name`.
    pub fn init_log(&mut self, name: &String, now: i64)
        ensures
            final(self)@ == old(self)@.log_started(*name, now),
            final(self)@.log.len() == 1,
    {
        let mut log: Vec<ActivityEntry> = Vec::new();
        log.push(
            ActivityEntry { action: ActivityAction::Launch.code(), to: name.clone(), time: now },
        );
        self.log = log;
        assert(self.log@ =~= seq![
            ActivityEntry { action: ActivityAction::Launch.code_spec(), to: *name, time: now },
        ]);
    }

    /// Appends a step to the activity log. A full log loses its oldest entry. This
    /// never fails.
    pub fn log_activity(&mut self, action: u8, to: &String, now: i64) -> (r: Result<
        (),
        OridionError,
    >)
        ensures
            r is Ok,
            final(self)@ == old(self)@.logged(action, *to, now),
            final(self)@.log.len() <= ACTIVITY_LOG_CAPACITY,
    {
        let ghost before = self.log@;
        let ghost pod0 = self@;
        assert(before.len() == self.log.len());
        let mut dropped: usize = 0;
        while self.log.len() >= ACTIVITY_LOG_CAPACITY
            invariant
                dropped <= before.len() <= usize::MAX,
                dropped == 0 || self.log@.len() >= ACTIVITY_LOG_CAPACITY - 1,
                self@ == (PodView { log: self.log@, ..pod0 }),
                self.log@ == before.subrange(dropped as int, before.len() as int),
            decreases self.log.len(),
        {
            let _ = self.log.remove(0);
            dropped += 1;
            assert(self.log@ =~= before.subrange(dropped as int, before.len() as int));
        }
        let entry = ActivityEntry { action, to: to.clone(), time: now };
        self.log.push(entry);
        assert(self.log@ =~= log_append(before, entry));
        Ok(())
    }
}

} // verus!
