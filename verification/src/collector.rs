//! Deferred reclamation of sessions, recognition jobs and audio artifacts.
//!
//! Whoever completes (a session that closes, a job that has its outcome)
//! asks for the removal; the collector carries it out only after a grace
//! period, so that the audio of a closed session can still be recognised and
//! the outcome of a finished job can still be asked for.
//! Times are readings of one monotonic clock, in milliseconds.

use vstd::prelude::*;
use crate::ident::{SessionId, UserId};
use crate::registry::{entry_key, AsrProcessorStorage, EntryKey, Handle, SessionStorage};

verus! {

/// Request to remove a session from its owner's registry, and its audio
/// artifact from disk, once the grace period has passed.
#[derive(Debug, Clone, Copy, PartialEq, Eq, Structural)]
pub struct ClearSession(pub UserId, pub SessionId);

/// Request to remove a recognition job from its owner's registry once the
/// grace period has passed.
#[derive(Debug, Clone, Copy, PartialEq, Eq, Structural)]
pub struct ClearAsr(pub UserId, pub SessionId);

/// What a cleanup reclaims.
#[derive(Debug, Clone, Copy, PartialEq, Eq, Structural)]
pub enum CleanupKind {
    /// The registry entry of a session and its audio artifact.
    Session,
    /// The registry entry of a recognition job.
    Asr,
}

/// A removal that waits for its time. It holds owner and identifier by
/// value, so it outlives the session or job that asked for it.
#[derive(Debug, Clone, Copy, PartialEq, Eq, Structural)]
pub struct Cleanup {
    /// The clock reading from which on the removal is carried out.
    pub due: u64,
    pub user_id: UserId,
    pub id: SessionId,
    pub kind: CleanupKind,
}

/// The clock reading `ttl` after `now`; the largest reading where that
/// would lie beyond it.
pub open spec fn due_time(now: u64, ttl: u64) -> u64 {
    if now + ttl <= u64::MAX {
        (now + ttl) as u64
    } else {
        u64::MAX
    }
}

/// Whether `task` is to be carried out at `now`.
pub open spec fn is_due(task: Cleanup, now: u64) -> bool {
    task.due <= now
}

/// Whether `task` reclaims an entry of kind `kind` at `now`.
pub open spec fn reclaims(task: Cleanup, now: u64, kind: CleanupKind) -> bool {
    is_due(task, now) && task.kind == kind
}

/// The tasks that still wait after `now`, in their order.
pub open spec fn waiting(tasks: Seq<Cleanup>, now: u64) -> Seq<Cleanup>
    decreases tasks.len(),
{
    if tasks.len() == 0 {
        Seq::empty()
    } else if is_due(tasks.last(), now) {
        waiting(tasks.drop_last(), now)
    } else {
        waiting(tasks.drop_last(), now).push(tasks.last())
    }
}

/// The registry `entries` after the tasks of kind `kind` that are due at
/// `now` have been carried out: each takes the entry of its owner and
/// identifier out, if there is one.
pub open spec fn swept(
    entries: Map<EntryKey, Handle>,
    tasks: Seq<Cleanup>,
    now: u64,
    kind: CleanupKind,
) -> Map<EntryKey, Handle>
    decreases tasks.len(),
{
    if tasks.len() == 0 {
        entries
    } else if reclaims(tasks.last(), now, kind) {
        swept(entries, tasks.drop_last(), now, kind).remove(
            entry_key(tasks.last().user_id, tasks.last().id),
        )
    } else {
        swept(entries, tasks.drop_last(), now, kind)
    }
}

/// The sessions whose audio artifact is to be deleted at `now`: those of
/// the due session cleanups, in the order of the tasks.
pub open spec fn artifacts(tasks: Seq<Cleanup>, now: u64) -> Seq<SessionId>
    decreases tasks.len(),
{
    if tasks.len() == 0 {
        Seq::empty()
    } else if reclaims(tasks.last(), now, CleanupKind::Session) {
        artifacts(tasks.drop_last(), now).push(tasks.last().id)
    } else {
        artifacts(tasks.drop_last(), now)
    }
}

/// Mathematical value of a collector.
pub struct CollectorModel {
    /// The grace period.
    pub objects_ttl: u64,
    /// The removals that wait, in the order in which they were asked for.
    pub tasks: Seq<Cleanup>,
}

impl CollectorModel {
    /// The collector after a removal of kind `kind` was asked for at `now`.
    pub open spec fn scheduled(self, kind: CleanupKind, user_id: UserId, id: SessionId, now: u64) -> CollectorModel {
        CollectorModel {
            tasks: self.tasks.push(
                Cleanup { due: due_time(now, self.objects_ttl), user_id, id, kind },
            ),
            ..self
        }
    }

    /// The collector after all that is due at `now` was carried out.
    pub open spec fn collected(self, now: u64) -> CollectorModel {
        CollectorModel { tasks: waiting(self.tasks, now), ..self }
    }
}

/// The scheduler of the deferred removals.
#[derive(Debug)]
pub struct GarbageCollector {
    objects_ttl: u64,
    tasks: Vec<Cleanup>,
}

impl View for GarbageCollector {
    type V = CollectorModel;

    closed spec fn view(&self) -> CollectorModel {
        CollectorModel { objects_ttl: self.objects_ttl, tasks: self.tasks@ }
    }
}

impl GarbageCollector {
    /// A collector with the grace period `objects_ttl` and nothing to do.
    pub fn new(objects_ttl: u64) -> (collector: Self)
        ensures
            collector@ == (CollectorModel { objects_ttl, tasks: Seq::empty() }),
    {
        GarbageCollector { objects_ttl, tasks: Vec::new() }
    }

    /// The grace period.
    pub fn objects_ttl(&self) -> (ttl: u64)
        ensures
            ttl == self@.objects_ttl,
    {
        self.objects_ttl
    }

    /// The number of removals that wait.
    pub fn pending(&self) -> (n: usize)
        ensures
            n == self@.tasks.len(),
    {
        self.tasks.len()
    }

    fn schedule(&mut self, kind: CleanupKind, user_id: UserId, id: SessionId, now: u64) -> (due: u64)
        ensures
            final(self)@ == old(self)@.scheduled(kind, user_id, id, now),
            due == due_time(now, old(self)@.objects_ttl),
    {
        let due: u64 = if self.objects_ttl <= u64::MAX - now {
            now + self.objects_ttl
        } else {
            u64::MAX
        };
        self.tasks.push(Cleanup { due, user_id, id, kind });
        due
    }

    /// Takes the request to reclaim a session, made at `now`: the removal
    /// is queued behind the earlier ones and becomes due one grace period
    /// later. Nothing is removed yet. Returns when it becomes due.
    pub fn handle_clear_session(&mut self, request: ClearSession, now: u64) -> (due: u64)
        ensures
            final(self)@ == old(self)@.scheduled(CleanupKind::Session, request.0, request.1, now),
            due == due_time(now, old(self)@.objects_ttl),
    {
        self.schedule(CleanupKind::Session, request.0, request.1, now)
    }

    /// Takes the request to reclaim a recognition job, made at `now`: the
    /// removal is queued behind the earlier ones and becomes due one grace
    /// period later. Nothing is removed yet. Returns when it becomes due.
    pub fn handle_clear_asr(&mut self, request: ClearAsr, now: u64) -> (due: u64)
        ensures
            final(self)@ == old(self)@.scheduled(CleanupKind::Asr, request.0, request.1, now),
            due == due_time(now, old(self)@.objects_ttl),
    {
        self.schedule(CleanupKind::Asr, request.0, request.1, now)
    }

    /// Carries out every removal that is due at `now`, in the order in
    /// which they were asked for, and keeps the others waiting in their
    /// order. A due session cleanup takes the session's entry out of
    /// `sessions`; a due job cleanup takes the job's entry out of `jobs`;
    /// an entry that is absent already is no error. Returns the sessions
    /// whose audio artifact the caller is to delete, one for each due
    /// session cleanup.
    pub fn collect(
        &mut self,
        now: u64,
        sessions: &mut SessionStorage,
        jobs: &mut AsrProcessorStorage,
    ) -> (deleted: Vec<SessionId>)
        ensures
            final(self)@ == old(self)@.collected(now),
            final(sessions)@ == swept(old(sessions)@, old(self)@.tasks, now, CleanupKind::Session),
            final(jobs)@ == swept(old(jobs)@, old(self)@.tasks, now, CleanupKind::Asr),
            deleted@ == artifacts(old(self)@.tasks, now),
    {
        let mut kept: Vec<Cleanup> = Vec::new();
        let mut deleted: Vec<SessionId> = Vec::new();
        let mut i: usize = 0;
        while i < self.tasks.len()
            invariant
                i <= self.tasks.len(),
                self.tasks@ == old(self).tasks@,
                self.objects_ttl == old(self).objects_ttl,
                kept@ == waiting(self.tasks@.take(i as int), now),
                deleted@ == artifacts(self.tasks@.take(i as int), now),
                sessions@ == swept(
                    old(sessions)@,
                    self.tasks@.take(i as int),
                    now,
                    CleanupKind::Session,
                ),
                jobs@ == swept(old(jobs)@, self.tasks@.take(i as int), now, CleanupKind::Asr),
            decreases self.tasks.len() - i,
        {
            let task = self.tasks[i];
            proof {
                let next = self.tasks@.take(i + 1);
                assert(next.drop_last() =~= self.tasks@.take(i as int));
                assert(next.last() == task);
            }
            if task.due <= now {
                match task.kind {
                    CleanupKind::Session => {
                        sessions.remove(task.user_id, task.id);
                        deleted.push(task.id);
                    },
                    CleanupKind::Asr => {
                        jobs.remove(task.user_id, task.id);
                    },
                }
            } else {
                kept.push(task);
            }
            i += 1;
        }
        proof {
            assert(self.tasks@.take(i as int) =~= self.tasks@);
        }
        self.tasks = kept;
        deleted
    }
}


/// Whether a task among `tasks` reclaims the entry under `key` of kind
/// `kind` at `now`.
pub open spec fn reclaimed(tasks: Seq<Cleanup>, now: u64, kind: CleanupKind, key: EntryKey) -> bool {
    exists|i: int|
        0 <= i < tasks.len() && reclaims(#[trigger] tasks[i], now, kind) && entry_key(
            tasks[i].user_id,
            tasks[i].id,
        ) == key
}

/// What a collection leaves of a registry: exactly the entries that no due
/// task of the registry's kind names, each with the handle it had. An
/// entry that no task names is never touched, and a task whose entry is
/// absent changes nothing.
pub proof fn lemma_swept_keeps_the_unnamed(
    entries: Map<EntryKey, Handle>,
    tasks: Seq<Cleanup>,
    now: u64,
    kind: CleanupKind,
    key: EntryKey,
)
    ensures
        swept(entries, tasks, now, kind).contains_key(key) <==> entries.contains_key(key)
            && !reclaimed(tasks, now, kind, key),
        swept(entries, tasks, now, kind).contains_key(key) ==> swept(entries, tasks, now, kind)[key]
            == entries[key],
    decreases tasks.len(),
{
    if tasks.len() > 0 {
        let before = tasks.drop_last();
        lemma_swept_keeps_the_unnamed(entries, before, now, kind, key);
        if reclaimed(before, now, kind, key) {
            let i = choose|i: int|
                0 <= i < before.len() && reclaims(#[trigger] before[i], now, kind) && entry_key(
                    before[i].user_id,
                    before[i].id,
                ) == key;
            assert(tasks[i] == before[i]);
        }
        if reclaimed(tasks, now, kind, key) {
            let i = choose|i: int|
                0 <= i < tasks.len() && reclaims(#[trigger] tasks[i], now, kind) && entry_key(
                    tasks[i].user_id,
                    tasks[i].id,
                ) == key;
            if i < before.len() {
                assert(before[i] == tasks[i]);
            } else {
                assert(tasks[i] == tasks.last());
            }
        }
        if reclaims(tasks.last(), now, kind) && entry_key(tasks.last().user_id, tasks.last().id)
            == key {
            assert(tasks[tasks.len() - 1] == tasks.last());
        }
    }
}

/// The grace period: a removal asked for at `now` leaves its entry alone at
/// every clock reading before it is due, where it just waits behind the
/// others; from its due time on, a collection takes the entry out and the
/// task is gone. The entries of the other kind are never touched by it.
pub proof fn lemma_removal_waits_for_the_grace_period(
    collector: CollectorModel,
    entries: Map<EntryKey, Handle>,
    kind: CleanupKind,
    other: CleanupKind,
    user_id: UserId,
    id: SessionId,
    now: u64,
    at: u64,
)
    requires
        other != kind,
    ensures
        at < due_time(now, collector.objects_ttl) ==> swept(
            entries,
            collector.scheduled(kind, user_id, id, now).tasks,
            at,
            kind,
        ) == swept(entries, collector.tasks, at, kind) && collector.scheduled(
            kind,
            user_id,
            id,
            now,
        ).collected(at).tasks == collector.collected(at).tasks.push(
            Cleanup { due: due_time(now, collector.objects_ttl), user_id, id, kind },
        ),
        at >= due_time(now, collector.objects_ttl) ==> swept(
            entries,
            collector.scheduled(kind, user_id, id, now).tasks,
            at,
            kind,
        ) == swept(entries, collector.tasks, at, kind).remove(entry_key(user_id, id))
            && collector.scheduled(kind, user_id, id, now).collected(at) == collector.collected(at),
        swept(entries, collector.scheduled(kind, user_id, id, now).tasks, at, other) == swept(
            entries,
            collector.tasks,
            at,
            other,
        ),
{
    let task = Cleanup { due: due_time(now, collector.objects_ttl), user_id, id, kind };
    let tasks = collector.tasks.push(task);
    assert(tasks.drop_last() =~= collector.tasks);
    assert(tasks.last() == task);
}

/// What is left waiting after a collection is not due: a second collection
/// at the same clock reading removes nothing, deletes nothing and leaves
/// the same tasks waiting.
pub proof fn lemma_collection_is_idempotent(
    entries: Map<EntryKey, Handle>,
    tasks: Seq<Cleanup>,
    now: u64,
    kind: CleanupKind,
)
    ensures
        waiting(waiting(tasks, now), now) == waiting(tasks, now),
        swept(entries, waiting(tasks, now), now, kind) == entries,
        artifacts(waiting(tasks, now), now) == Seq::<SessionId>::empty(),
    decreases tasks.len(),
{
    if tasks.len() > 0 {
        lemma_collection_is_idempotent(entries, tasks.drop_last(), now, kind);
        if !is_due(tasks.last(), now) {
            let rest = waiting(tasks.drop_last(), now);
            assert(rest.push(tasks.last()).drop_last() =~= rest);
            assert(rest.push(tasks.last()).last() == tasks.last());
        }
    }
}

} // verus!
