//! One guest instance as the host sees it: its worker identity, its
//! monotonic context-id counter, and its buffer arena.
//!
//! A context id packs the worker index into its high 32 bits and the
//! per-instance counter into its low 32 bits, so any host import can recover
//! the originating instance from the id alone.

use vstd::prelude::*;

use crate::arena::{Arena, Buffer};

verus! {

/// The context id minted by worker `w` at counter value `c`.
pub open spec fn spec_pack_ctx(w: u32, c: u32) -> u64 {
    ((w as u64) << 32) | (c as u64)
}

/// The worker index packed into `ctx`.
pub open spec fn ctx_worker(ctx: u64) -> u32 {
    (ctx >> 32) as u32
}

/// The counter value packed into `ctx`.
pub open spec fn ctx_counter(ctx: u64) -> u32 {
    ctx as u32
}

/// A context id names exactly the worker and counter it was packed from.
pub proof fn lemma_ctx_id_round_trip(w: u32, c: u32)
    ensures
        ctx_worker(spec_pack_ctx(w, c)) == w,
        ctx_counter(spec_pack_ctx(w, c)) == c,
{
    assert(((((w as u64) << 32) | (c as u64)) >> 32) as u32 == w) by (bit_vector);
    assert(((((w as u64) << 32) | (c as u64)) as u32) == c) by (bit_vector);
}

/// Ids minted by one worker at increasing counter values increase, and
/// their low halves increase with them.
pub proof fn lemma_ctx_ids_increase(w: u32, c1: u32, c2: u32)
    requires
        c1 < c2,
    ensures
        spec_pack_ctx(w, c1) < spec_pack_ctx(w, c2),
        ctx_counter(spec_pack_ctx(w, c1)) < ctx_counter(spec_pack_ctx(w, c2)),
{
    lemma_ctx_id_round_trip(w, c1);
    lemma_ctx_id_round_trip(w, c2);
    assert(c1 < c2 ==> (((w as u64) << 32) | (c1 as u64)) < (((w as u64) << 32) | (c2 as u64)))
        by (bit_vector);
}

/// Ids minted by different workers never collide, whatever their counters.
pub proof fn lemma_distinct_workers_distinct_ctx_ids(w1: u32, c1: u32, w2: u32, c2: u32)
    requires
        w1 != w2,
    ensures
        spec_pack_ctx(w1, c1) != spec_pack_ctx(w2, c2),
{
    lemma_ctx_id_round_trip(w1, c1);
    lemma_ctx_id_round_trip(w2, c2);
}

/// Two equal context ids name one worker and one counter value: every
/// in-flight request is addressed by its id alone, so a response stored
/// under an id belongs to exactly the request that minted it.
pub proof fn lemma_ctx_id_injective(w1: u32, c1: u32, w2: u32, c2: u32)
    requires
        spec_pack_ctx(w1, c1) == spec_pack_ctx(w2, c2),
    ensures
        w1 == w2,
        c1 == c2,
{
    lemma_ctx_id_round_trip(w1, c1);
    lemma_ctx_id_round_trip(w2, c2);
}

/// Packs a worker index and a counter value into a context id.
pub fn pack_ctx_id(w: u32, c: u32) -> (r: u64)
    ensures
        r == spec_pack_ctx(w, c),
        ctx_worker(r) == w,
        ctx_counter(r) == c,
{
    proof {
        lemma_ctx_id_round_trip(w, c);
    }
    ((w as u64) << 32) | (c as u64)
}

/// Splits a context id into its worker index and counter value.
pub fn split_ctx_id(ctx: u64) -> (r: (u32, u32))
    ensures
        r.0 == ctx_worker(ctx),
        r.1 == ctx_counter(ctx),
{
    (
        #[verifier::truncate] ((ctx >> 32) as u32),
        #[verifier::truncate] (ctx as u32),
    )
}

/// The worker index a context id routes back to.
pub fn worker_of_ctx_id(ctx: u64) -> (r: u32)
    ensures
        r == ctx_worker(ctx),
{
    #[verifier::truncate] ((ctx >> 32) as u32)
}

/// How one attempt to invoke the guest handler ended.
#[derive(Clone, Copy, Debug, PartialEq, Eq, Structural)]
pub enum GuestCallOutcome {
    /// The handler returned.
    Completed,
    /// The handler trapped out of memory.
    TrapOom,
    /// The handler trapped for another reason.
    Trap,
}

/// What the host does after an attempt to invoke the guest handler.
#[derive(Clone, Copy, Debug, PartialEq, Eq, Structural)]
pub enum GuestCallAction {
    /// The call succeeded; take the response buffer.
    Done,
    /// Grow linear memory by one page and invoke once more.
    GrowAndRetry,
    /// A second out-of-memory trap; the request fails.
    FailOom,
    /// Any other trap; the request fails with an empty response.
    FailTrap,
}

/// The host's retry rule: one grow-and-retry after a first out-of-memory
/// trap, nothing more.
pub open spec fn spec_guest_call_step(retried: bool, outcome: GuestCallOutcome) -> GuestCallAction {
    match outcome {
        GuestCallOutcome::Completed => GuestCallAction::Done,
        GuestCallOutcome::TrapOom => if retried {
            GuestCallAction::FailOom
        } else {
            GuestCallAction::GrowAndRetry
        },
        GuestCallOutcome::Trap => GuestCallAction::FailTrap,
    }
}

/// Decides what follows one guest-call attempt. `retried` says whether a
/// grow-and-retry already happened for this request.
pub fn guest_call_step(retried: bool, outcome: GuestCallOutcome) -> (r: GuestCallAction)
    ensures
        r == spec_guest_call_step(retried, outcome),
{
    match outcome {
        GuestCallOutcome::Completed => GuestCallAction::Done,
        GuestCallOutcome::TrapOom => if retried {
            GuestCallAction::FailOom
        } else {
            GuestCallAction::GrowAndRetry
        },
        GuestCallOutcome::Trap => GuestCallAction::FailTrap,
    }
}

/// Whether the window `[offset, offset + size)` lies within a linear memory
/// of `mem_size` bytes.
pub fn check_mem_range(offset: usize, size: usize, mem_size: usize) -> (r: bool)
    ensures
        r == (offset + size <= mem_size),
{
    size <= mem_size && offset <= mem_size - size
}

/// One guest instance: its worker identity, context-id counter, and arena.
pub struct Instance {
    pub worker: u32,
    pub counter: u32,
    pub arena: Arena,
}

impl Instance {
    /// The worker index this instance is pinned to.
    pub open spec fn spec_worker(&self) -> u32 {
        self.worker
    }

    /// The counter the next minted id will carry.
    pub open spec fn spec_counter(&self) -> u32 {
        self.counter
    }

    /// The arena is well formed.
    pub open spec fn wf(&self) -> bool {
        self.arena.wf()
    }

    /// A fresh instance for worker `w`: counter at zero, arena empty.
    pub fn new(w: u32) -> (r: Instance)
        ensures
            r.spec_worker() == w,
            r.spec_counter() == 0,
            r.arena.slot_map() == Map::<u64, Buffer>::empty(),
            r.arena.grows() == 0,
            r.wf(),
    {
        Instance { worker: w, counter: 0, arena: Arena::new() }
    }

    /// The worker index this instance is pinned to.
    pub fn worker(&self) -> (r: u32)
        ensures
            r == self.spec_worker(),
    {
        self.worker
    }

    /// Mints a fresh context id: the worker index above the current counter
    /// value, which then moves on by one.
    pub fn gen_ctx_id(&mut self) -> (r: u64)
        requires
            old(self).spec_counter() < u32::MAX,
        ensures
            r == spec_pack_ctx(old(self).spec_worker(), old(self).spec_counter()),
            ctx_worker(r) == old(self).spec_worker(),
            ctx_counter(r) == old(self).spec_counter(),
            final(self).spec_counter() == old(self).spec_counter() + 1,
            final(self).spec_worker() == old(self).spec_worker(),
            final(self).arena == old(self).arena,
    {
        let c = self.counter;
        self.counter = c + 1;
        pack_ctx_id(self.worker, c)
    }

    /// The id the next `gen_ctx_id` will mint.
    pub fn next_ctx_id(&self) -> (r: u64)
        ensures
            r == spec_pack_ctx(self.spec_worker(), self.spec_counter()),
    {
        pack_ctx_id(self.worker, self.counter)
    }

    /// Removes and returns the buffer for `ctx_id`, leaving the slot empty.
    pub fn take_buffer(&mut self, ctx_id: u64) -> (r: Option<Buffer>)
        requires
            old(self).wf(),
        ensures
            final(self).wf(),
            final(self).arena.slot_map() == old(self).arena.slot_map().remove(ctx_id),
            !final(self).arena.has(ctx_id),
            final(self).arena.grows() == old(self).arena.grows(),
            final(self).spec_worker() == old(self).spec_worker(),
            final(self).spec_counter() == old(self).spec_counter(),
            match r {
                Some(b) => old(self).arena.has(ctx_id) && b == old(self).arena.slot_map()[ctx_id],
                None => !old(self).arena.has(ctx_id),
            },
    {
        self.arena.take(ctx_id)
    }

    /// Offers `buf` for reuse under the id the next request will get; the
    /// slot keeps what it already holds, if anything.
    pub fn try_reuse_buffer(&mut self, buf: Buffer)
        requires
            old(self).wf(),
            buf.wf(),
        ensures
            final(self).wf(),
            final(self).spec_worker() == old(self).spec_worker(),
            final(self).spec_counter() == old(self).spec_counter(),
            final(self).arena.grows() == old(self).arena.grows(),
            final(self).arena.slot_map() == {
                let next = spec_pack_ctx(old(self).spec_worker(), old(self).spec_counter());
                if old(self).arena.has(next) {
                    old(self).arena.slot_map()
                } else {
                    old(self).arena.slot_map().insert(next, buf)
                }
            },
    {
        let next = self.next_ctx_id();
        self.arena.try_reuse(next, buf);
    }
}

} // verus!
