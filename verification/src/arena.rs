//! The per-instance buffer arena: one reusable byte buffer per context id.
//!
//! A buffer exists for a context id while the guest may still reference it
//! through the host imports. The arena remembers each slot's high-water
//! capacity and counts the times a slot had to grow, so that reuse can be
//! observed: a steady workload settles on a buffer that never grows again.

use std::collections::HashMap;
use vstd::prelude::*;

verus! {

broadcast use vstd::std_specs::hash::group_hash_axioms;

/// One reusable byte buffer together with its high-water capacity.
pub struct Buffer {
    pub data: Vec<u8>,
    pub cap: usize,
}

impl Buffer {
    /// The recorded capacity covers the bytes held.
    pub open spec fn wf(&self) -> bool {
        self.data@.len() <= self.cap
    }
}

/// `s` brought to length `n`: truncated, or padded with zero bytes.
pub open spec fn resized(s: Seq<u8>, n: nat) -> Seq<u8> {
    if n <= s.len() {
        s.take(n as int)
    } else {
        s + Seq::new((n - s.len()) as nat, |i: int| 0u8)
    }
}

/// The bytes a slot holds, or none.
pub open spec fn slot_bytes(m: Map<u64, Buffer>, id: u64) -> Seq<u8> {
    if m.contains_key(id) {
        m[id].data@
    } else {
        Seq::empty()
    }
}

/// The capacity a slot has, or zero.
pub open spec fn slot_cap(m: Map<u64, Buffer>, id: u64) -> nat {
    if m.contains_key(id) {
        m[id].cap as nat
    } else {
        0
    }
}

/// The buffer contents a closure passed to `with_mut` sees on entry: the
/// stored bytes, brought to `min_size` when `min_size` is nonzero.
pub open spec fn entry_bytes(m: Map<u64, Buffer>, id: u64, min_size: nat) -> Seq<u8> {
    if min_size == 0 {
        slot_bytes(m, id)
    } else {
        resized(slot_bytes(m, id), min_size)
    }
}

/// The mapping from context id to reusable buffer.
pub struct Arena {
    slots: HashMap<u64, Buffer>,
    grow_count: u64,
}

impl Arena {
    /// The slots held, as a map.
    pub closed spec fn slot_map(&self) -> Map<u64, Buffer> {
        self.slots@
    }

    /// A buffer is stored for `id`.
    pub open spec fn has(&self, id: u64) -> bool {
        self.slot_map().contains_key(id)
    }

    /// The bytes stored for `id`.
    pub open spec fn bytes_of(&self, id: u64) -> Seq<u8> {
        slot_bytes(self.slot_map(), id)
    }

    /// The high-water capacity of the slot for `id`.
    pub open spec fn cap_of(&self, id: u64) -> nat {
        slot_cap(self.slot_map(), id)
    }

    /// How many times any slot's capacity grew.
    pub closed spec fn grows(&self) -> nat {
        self.grow_count as nat
    }

    /// Every stored buffer is within its recorded capacity.
    pub open spec fn wf(&self) -> bool {
        forall|id: u64|
            self.slot_map().contains_key(id) ==> (#[trigger] self.slot_map()[id]).wf()
    }

    /// An empty arena.
    pub fn new() -> (r: Arena)
        ensures
            r.slot_map() == Map::<u64, Buffer>::empty(),
            r.grows() == 0,
            r.wf(),
    {
        Arena { slots: HashMap::new(), grow_count: 0 }
    }

    /// How many times any slot's capacity grew.
    pub fn grow_count(&self) -> (r: u64)
        ensures
            r == self.grows(),
    {
        self.grow_count
    }

    /// Ensures a buffer exists for `ctx_id` — sized to `min_size` when
    /// `min_size` is nonzero, untouched when it is zero — hands it to `f`,
    /// stores what `f` returns in the slot, and returns `f`'s second result.
    ///
    /// The slot's capacity never decreases, and it grows only when forced:
    /// by a `min_size` above it, or by `f` returning more bytes than it
    /// covers.
    pub fn with_mut<F: FnOnce(Vec<u8>) -> (Vec<u8>, usize)>(
        &mut self,
        ctx_id: u64,
        min_size: usize,
        f: F,
    ) -> (r: usize)
        requires
            old(self).wf(),
            old(self).grows() + 2 <= u64::MAX,
            forall|b: Vec<u8>|
                b@ == entry_bytes(old(self).slot_map(), ctx_id, min_size as nat)
                    ==> call_requires(f, (b,)),
        ensures
            final(self).wf(),
            final(self).has(ctx_id),
            exists|b: Vec<u8>, out: (Vec<u8>, usize)|
                {
                    &&& b@ == entry_bytes(old(self).slot_map(), ctx_id, min_size as nat)
                    &&& #[trigger] call_ensures(f, (b,), out)
                    &&& final(self).bytes_of(ctx_id) == out.0@
                    &&& r == out.1
                },
            final(self).cap_of(ctx_id) >= old(self).cap_of(ctx_id),
            final(self).cap_of(ctx_id) >= min_size,
            final(self).cap_of(ctx_id) >= final(self).bytes_of(ctx_id).len(),
            min_size <= old(self).cap_of(ctx_id) && final(self).bytes_of(ctx_id).len() <= old(self).cap_of(ctx_id) ==> {
                &&& final(self).cap_of(ctx_id) == old(self).cap_of(ctx_id)
                &&& final(self).grows() == old(self).grows()
            },
            final(self).grows() >= old(self).grows(),
            final(self).grows() <= old(self).grows() + 2,
            forall|o: u64|
                o != ctx_id ==> #[trigger] final(self).has(o) == old(self).has(o),
            forall|o: u64|
                o != ctx_id ==> #[trigger] final(self).bytes_of(o) == old(self).bytes_of(o),
            forall|o: u64|
                o != ctx_id ==> #[trigger] final(self).cap_of(o) == old(self).cap_of(o),
    {
        let ghost m0 = self.slots@;
        let taken = self.slots.remove(&ctx_id);
        let (mut data, cap0) = match taken {
            Some(b) => (b.data, b.cap),
            None => (Vec::new(), 0),
        };
        assert(data@ == slot_bytes(m0, ctx_id));
        assert(cap0 == slot_cap(m0, ctx_id));
        let mut cap = cap0;
        if min_size > cap {
            cap = min_size;
            self.grow_count = self.grow_count + 1;
        }
        if min_size > 0 {
            if min_size <= data.len() {
                data.truncate(min_size);
            } else {
                let ghost prev = data@;
                data.resize(min_size, 0u8);
                proof {
                    assert forall|i: int| prev.len() <= i < min_size implies data@[i] == 0u8 by {
                        assert(cloned(0u8, data@[i]));
                    }
                }
            }
            assert(data@ =~= entry_bytes(m0, ctx_id, min_size as nat));
        }
        let ghost b_in = data;
        let (data, ret) = f(data);
        let ghost w_out = (data, ret);
        if data.len() > cap {
            cap = data.len();
            self.grow_count = self.grow_count + 1;
        }
        let buf = Buffer { data, cap };
        self.slots.insert(ctx_id, buf);
        proof {
            assert(b_in@ == entry_bytes(m0, ctx_id, min_size as nat));
            assert(call_ensures(f, (b_in,), w_out));
            assert(self.slots@[ctx_id].data@ == w_out.0@);
        }
        ret
    }

    /// Removes and returns the buffer for `ctx_id`, leaving the slot empty.
    pub fn take(&mut self, ctx_id: u64) -> (r: Option<Buffer>)
        requires
            old(self).wf(),
        ensures
            final(self).wf(),
            final(self).slot_map() == old(self).slot_map().remove(ctx_id),
            !final(self).has(ctx_id),
            final(self).grows() == old(self).grows(),
            match r {
                Some(b) => old(self).has(ctx_id) && b == old(self).slot_map()[ctx_id],
                None => !old(self).has(ctx_id),
            },
    {
        let r = self.slots.remove(&ctx_id);
        proof {
            assert forall|id: u64| self.slots@.contains_key(id) implies (
            #[trigger] self.slots@[id]).wf() by {
                assert(self.slots@[id] == old(self).slot_map()[id]);
            }
        }
        r
    }

    /// Installs `buf` for `ctx_id` if that slot is empty; otherwise drops
    /// it.
    pub fn try_reuse(&mut self, ctx_id: u64, buf: Buffer)
        requires
            old(self).wf(),
            buf.wf(),
        ensures
            final(self).wf(),
            final(self).grows() == old(self).grows(),
            final(self).slot_map() == if old(self).has(ctx_id) {
                old(self).slot_map()
            } else {
                old(self).slot_map().insert(ctx_id, buf)
            },
    {
        if !self.slots.contains_key(&ctx_id) {
            self.slots.insert(ctx_id, buf);
        }
        proof {
            assert forall|id: u64| self.slots@.contains_key(id) implies (
            #[trigger] self.slots@[id]).wf() by {
                if id != ctx_id || old(self).has(ctx_id) {
                    assert(self.slots@[id] == old(self).slot_map()[id]);
                }
            }
        }
    }

    /// Returns the bytes stored for `ctx_id` and drains that slot to length
    /// zero, keeping its capacity; an absent slot is created empty.
    pub fn drain(&mut self, ctx_id: u64) -> (r: Vec<u8>)
        requires
            old(self).wf(),
        ensures
            final(self).wf(),
            r@ == old(self).bytes_of(ctx_id),
            final(self).has(ctx_id),
            final(self).bytes_of(ctx_id) == Seq::<u8>::empty(),
            final(self).cap_of(ctx_id) == old(self).cap_of(ctx_id),
            final(self).grows() == old(self).grows(),
            forall|o: u64|
                o != ctx_id ==> #[trigger] final(self).has(o) == old(self).has(o),
            forall|o: u64|
                o != ctx_id ==> #[trigger] final(self).bytes_of(o) == old(self).bytes_of(o),
            forall|o: u64|
                o != ctx_id ==> #[trigger] final(self).cap_of(o) == old(self).cap_of(o),
    {
        let taken = self.slots.remove(&ctx_id);
        let (data, cap) = match taken {
            Some(b) => (b.data, b.cap),
            None => (Vec::new(), 0),
        };
        self.slots.insert(ctx_id, Buffer { data: Vec::new(), cap });
        proof {
            assert forall|id: u64| self.slots@.contains_key(id) implies (
            #[trigger] self.slots@[id]).wf() by {
                if id != ctx_id {
                    assert(self.slots@[id] == old(self).slot_map()[id]);
                }
            }
        }
        data
    }
}

} // verus!
