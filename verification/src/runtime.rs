//! Per-worker engine state: the correlation-id counter, the pending
//! reply table, and the detachable job-queue receiver.
//!
//! Each worker owns exactly one engine and one value of this state. When
//! the engine pulls a job, the job's reply channel is stored under a
//! fresh correlation id; when the script layer replies, the channel is
//! looked up and removed. Shutdown detaches the queue receiver, which
//! stops new pulls but deliberately leaves the pending table alone, so a
//! job pulled just before the signal can still be answered.

use vstd::prelude::*;
use std::collections::HashMap;

verus! {

broadcast use vstd::std_specs::hash::group_hash_axioms;

/// Hands out correlation ids: monotonically increasing, wrapping on
/// overflow. Ids are unique per engine instance, not globally.
pub struct IdCounter {
    pub inner: usize,
}

impl IdCounter {
    pub fn new() -> (r: Self)
        ensures
            r.inner == 0,
    {
        IdCounter { inner: 0 }
    }

    pub fn next(&mut self) -> (id: usize)
        ensures
            id == old(self).inner,
            final(self).inner == spec_next_id(old(self).inner),
    {
        let id = self.inner;
        self.inner = self.inner.wrapping_add(1);
        id
    }
}

/// The id after `id`: one more, wrapping to zero at the top.
pub open spec fn spec_next_id(id: usize) -> usize {
    if id == usize::MAX {
        0usize
    } else {
        (id + 1) as usize
    }
}

/// The pending reply table of one engine: reply channels keyed by the
/// correlation id they were handed out under. Owned by exactly one
/// worker; entries leave the table the moment a reply is delivered.
pub struct ResponseSenders<S> {
    pub inner: HashMap<usize, S>,
}

impl<S> ResponseSenders<S> {
    pub fn new() -> (r: Self)
        ensures
            r.inner@ == Map::<usize, S>::empty(),
    {
        ResponseSenders { inner: HashMap::new() }
    }

    pub fn insert(&mut self, id: usize, sender: S)
        ensures
            final(self).inner@ == old(self).inner@.insert(id, sender),
    {
        self.inner.insert(id, sender);
    }

    /// Removes and returns the channel stored under `id`; `None` means
    /// the caller already gave up (or the id was never handed out).
    pub fn take(&mut self, id: usize) -> (r: Option<S>)
        ensures
            final(self).inner@ == old(self).inner@.remove(id),
            r == (if old(self).inner@.contains_key(id) {
                Some(old(self).inner@[id])
            } else {
                None::<S>
            }),
    {
        self.inner.remove(&id)
    }
}

/// The state one worker's engine bridge keeps across host calls: the
/// job-queue receiver while the worker still pulls jobs (`R` is the
/// caller's receiver payload), the id counter, and the reply channels
/// (`S`) of the jobs pulled but not yet answered.
pub struct EngineState<R, S> {
    pub receiver: Option<R>,
    pub ids: IdCounter,
    pub senders: ResponseSenders<S>,
}

/// The bridge state as the correlation protocol sees it.
pub struct EngineModel<S> {
    /// Whether the job-queue receiver is still attached.
    pub attached: bool,
    /// The next correlation id to hand out.
    pub next_id: usize,
    /// The reply channels of the jobs pulled but not yet answered.
    pub pending: Map<usize, S>,
}

/// What accepting one job does: the job's reply channel is filed under
/// the next correlation id, which is handed to the script layer.
pub open spec fn accept_job_step<S>(m: EngineModel<S>, tx: S) -> (EngineModel<S>, usize) {
    (
        EngineModel {
            attached: m.attached,
            next_id: spec_next_id(m.next_id),
            pending: m.pending.insert(m.next_id, tx),
        },
        m.next_id,
    )
}

/// What detaching the queue receiver does: pulls stop, nothing else
/// changes — in particular every pending reply survives.
pub open spec fn detach_step<S>(m: EngineModel<S>) -> EngineModel<S> {
    EngineModel { attached: false, next_id: m.next_id, pending: m.pending }
}

/// What delivering one reply does: the channel filed under `id` leaves
/// the table and is handed back; a missing id hands back nothing.
pub open spec fn send_response_step<S>(m: EngineModel<S>, id: usize) -> (EngineModel<S>, Option<
    S,
>) {
    (
        EngineModel { attached: m.attached, next_id: m.next_id, pending: m.pending.remove(id) },
        if m.pending.contains_key(id) {
            Some(m.pending[id])
        } else {
            None
        },
    )
}

impl<R, S> EngineState<R, S> {
    /// The correlation-protocol view of this state.
    pub open spec fn model(self) -> EngineModel<S> {
        EngineModel {
            attached: self.receiver is Some,
            next_id: self.ids.inner,
            pending: self.senders.inner@,
        }
    }
    /// A fresh bridge: queue attached, ids from zero, no pending reply.
    pub fn new(receiver: R) -> (r: Self)
        ensures
            r.receiver == Some(receiver),
            r.ids.inner == 0,
            r.senders.inner@ == Map::<usize, S>::empty(),
    {
        EngineState {
            receiver: Some(receiver),
            ids: IdCounter::new(),
            senders: ResponseSenders::new(),
        }
    }

    /// The queue receiver, while the worker still pulls jobs. A `None`
    /// tells the driving loop to stop issuing pulls.
    pub fn request_receiver(&self) -> (r: &Option<R>)
        ensures
            r == self.receiver,
    {
        &self.receiver
    }

    /// Books one pulled job in: hands out the next correlation id and
    /// stores the reply channel under it.
    pub fn accept_job(&mut self, tx: S) -> (id: usize)
        ensures
            final(self).receiver == old(self).receiver,
            final(self).model() == accept_job_step(old(self).model(), tx).0,
            id == accept_job_step(old(self).model(), tx).1,
    {
        let id = self.ids.next();
        self.senders.insert(id, tx);
        id
    }

    /// Begins draining: detaches the queue receiver so no further job is
    /// pulled, while every pending reply channel stays in place.
    pub fn remove_request_receiver(&mut self) -> (r: Option<R>)
        ensures
            r == old(self).receiver,
            final(self).model() == detach_step(old(self).model()),
    {
        let r = self.receiver.take();
        r
    }

    /// Delivers a reply: removes and returns the channel filed under
    /// `id`. `None` means the caller already gave up; the script layer
    /// must not treat that as fatal.
    pub fn send_response(&mut self, id: usize) -> (r: Option<S>)
        ensures
            final(self).model() == send_response_step(old(self).model(), id).0,
            r == send_response_step(old(self).model(), id).1,
    {
        self.senders.take(id)
    }
}

/// Replies are correlated, never crossed: whatever else the table holds,
/// filing two jobs under distinct ids and then delivering one reply
/// reaches exactly the channel of the job it answers, and delivering the
/// other afterwards still reaches its own.
pub proof fn lemma_replies_never_crossed<S>(tbl: Map<usize, S>, id_a: usize, tx_a: S, id_b: usize, tx_b: S)
    requires
        id_a != id_b,
    ensures
        tbl.insert(id_a, tx_a).insert(id_b, tx_b)[id_a] == tx_a,
        tbl.insert(id_a, tx_a).insert(id_b, tx_b)[id_b] == tx_b,
        tbl.insert(id_a, tx_a).insert(id_b, tx_b).remove(id_b)[id_a] == tx_a,
{
}

/// Shutdown is non-destructive to in-flight work: a job accepted right
/// before the shutdown signal detaches the receiver can still be
/// answered afterwards, and the reply goes out on that job's own
/// channel.
pub proof fn lemma_shutdown_preserves_pending_reply<S>(m: EngineModel<S>, tx: S)
    ensures
        ({
            let (m1, id) = accept_job_step(m, tx);
            let m2 = detach_step(m1);
            send_response_step(m2, id).1 == Some(tx)
        }),
{
}

} // verus!
