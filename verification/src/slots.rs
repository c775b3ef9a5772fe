//! The tensor slot table and its readiness-signal queues.
//!
//! A slot is an integer in `[0, 256)` naming a tensor.  Beside each slot
//! the table keeps a FIFO queue of readiness signals: one-shot completion
//! tokens that gate downstream readers of the slot.  Writing a slot
//! installs a fresh batch of signals; each consumer removes one signal
//! from the front and waits on it before touching the tensor.  Each signal
//! carries a distinct identifier drawn from a table-wide counter, so a
//! redefinition replaces the whole queue with recognisably new signals.

use vstd::prelude::*;

use crate::tensors::{dup_vec, ActTensorTypes, TensorVal};

verus! {

/// The number of slots the table holds.
pub const SLOT_COUNT: usize = 256;

/// A one-shot readiness signal: one producer fires it exactly once, one
/// consumer pops and waits on it exactly once.
#[derive(Debug, Clone, Copy, PartialEq, Eq, Structural)]
pub struct ReadySignal {
    /// The table-wide identifier of this signal; no two signals the table
    /// ever issued share one.
    pub id: u64,
    /// Whether the producing operation has completed.
    pub fired: bool,
}

/// The slot table: `slot -> tensor` and `slot -> queue<signal>`.
pub struct SlotTable {
    tensors: Vec<Option<ActTensorTypes>>,
    signals: Vec<Vec<ReadySignal>>,
    next_signal_id: u64,
}

impl SlotTable {
    /// The value of the tensor a slot holds.
    pub closed spec fn tensor_spec(self, slot: int) -> Option<TensorVal> {
        match self.tensors@[slot] {
            Some(t) => Some(t@),
            None => None,
        }
    }

    /// The signal queue of a slot, front first.
    pub closed spec fn signals_spec(self, slot: int) -> Seq<ReadySignal> {
        self.signals@[slot]@
    }

    /// The next identifier the table will issue.
    pub closed spec fn next_id_spec(self) -> u64 {
        self.next_signal_id
    }

    /// Well-formedness: both tables span all slots, every stored tensor is
    /// internally consistent, and every issued signal identifier lies
    /// below the table's counter.
    pub closed spec fn wf(self) -> bool {
        &&& self.tensors@.len() == SLOT_COUNT
        &&& self.signals@.len() == SLOT_COUNT
        &&& forall|s: int|
            0 <= s < SLOT_COUNT ==> ((#[trigger] self.tensors@[s]) matches Some(t) ==> t.wf())
        &&& forall|s: int, i: int|
            0 <= s < SLOT_COUNT && 0 <= i < self.signals@[s]@.len() ==> (
            #[trigger] self.signals@[s]@[i]).id < self.next_signal_id
    }

    /// Within a well-formed table, every stored tensor value is well
    /// formed.
    pub proof fn lemma_wf_tensor(self, slot: int)
        requires
            self.wf(),
            0 <= slot < SLOT_COUNT,
        ensures
            self.tensor_spec(slot) matches Some(t) ==> t.wf(),
    {
        assert(self.tensors@[slot] matches Some(t) ==> t.wf());
    }

    /// Within a well-formed table, every queued signal's identifier lies
    /// below the counter: it was issued earlier.
    pub proof fn lemma_wf_ids_below(self, slot: int)
        requires
            self.wf(),
            0 <= slot < SLOT_COUNT,
        ensures
            forall|i: int|
                0 <= i < self.signals_spec(slot).len() ==> (#[trigger] self.signals_spec(
                    slot,
                )[i]).id < self.next_id_spec(),
    {
        assert forall|i: int|
            0 <= i < self.signals_spec(slot).len() implies (#[trigger] self.signals_spec(
            slot,
        )[i]).id < self.next_id_spec() by {
            assert(self.signals@[slot]@[i].id < self.next_signal_id);
        }
    }

    /// Whether the identifier counter still has headroom for a fresh
    /// batch of signals.
    pub fn ids_available(&self) -> (r: bool)
        ensures
            r == (self.next_id_spec() + 64 <= u64::MAX),
    {
        self.next_signal_id <= u64::MAX - 64
    }

    /// An empty table: no tensors, no signals, the identifier counter at
    /// zero.
    pub fn new() -> (r: SlotTable)
        ensures
            r.wf(),
            r.next_id_spec() == 0,
            forall|s: int| 0 <= s < SLOT_COUNT ==> #[trigger] r.tensor_spec(s) is None,
            forall|s: int| 0 <= s < SLOT_COUNT ==> (#[trigger] r.signals_spec(s)).len() == 0,
    {
        let mut tensors: Vec<Option<ActTensorTypes>> = Vec::new();
        let mut signals: Vec<Vec<ReadySignal>> = Vec::new();
        let mut i: usize = 0;
        while i < SLOT_COUNT
            invariant
                tensors@.len() == i,
                signals@.len() == i,
                i <= SLOT_COUNT,
                forall|s: int| 0 <= s < i ==> (#[trigger] tensors@[s]) is None,
                forall|s: int| 0 <= s < i ==> (#[trigger] signals@[s])@.len() == 0,
            decreases SLOT_COUNT - i,
        {
            tensors.push(None);
            signals.push(Vec::new());
            i = i + 1;
        }
        SlotTable { tensors, signals, next_signal_id: 0 }
    }

    /// Clones the tensor a slot holds, if any.
    pub fn get_tensor(&self, slot: u8) -> (r: Option<ActTensorTypes>)
        requires
            self.wf(),
        ensures
            r is Some <==> self.tensor_spec(slot as int) is Some,
            r matches Some(t) ==> Some(t@) == self.tensor_spec(slot as int) && t.wf(),
    {
        match &self.tensors[slot as usize] {
            Some(t) => {
                proof {
                    assert(self.tensors@[slot as int] matches Some(t2) ==> t2.wf());
                }
                Some(t.duplicate())
            },
            None => None,
        }
    }

    /// Whether a slot currently holds a tensor.
    pub fn has_tensor(&self, slot: u8) -> (r: bool)
        requires
            self.wf(),
        ensures
            r == (self.tensor_spec(slot as int) is Some),
    {
        self.tensors[slot as usize].is_some()
    }

    /// Inserts or replaces the tensor of a slot; the previous value is
    /// dropped.  The signal queue is untouched: redefinition replaces it
    /// separately through `set_fresh_signals`.
    pub fn put_tensor(&mut self, slot: u8, t: ActTensorTypes)
        requires
            old(self).wf(),
            t.wf(),
        ensures
            final(self).wf(),
            final(self).tensor_spec(slot as int) == Some(t@),
            forall|s: int|
                0 <= s < SLOT_COUNT && s != slot as int ==> #[trigger] final(self).tensor_spec(s)
                    == old(self).tensor_spec(s),
            forall|s: int|
                0 <= s < SLOT_COUNT ==> #[trigger] final(self).signals_spec(s) == old(
                    self,
                ).signals_spec(s),
            final(self).next_id_spec() == old(self).next_id_spec(),
    {
        self.tensors.set(slot as usize, Some(t));
        proof {
            assert forall|s: int|
                0 <= s < SLOT_COUNT implies ((#[trigger] self.tensors@[s]) matches Some(t2)
                ==> t2.wf()) by {
                if s != slot as int {
                    assert(old(self).tensors@[s] matches Some(t3) ==> t3.wf());
                }
            }
            assert forall|s: int, i: int|
                0 <= s < SLOT_COUNT && 0 <= i < self.signals@[s]@.len() implies (
            #[trigger] self.signals@[s]@[i]).id < self.next_signal_id by {
                assert(old(self).signals@[s]@[i].id < old(self).next_signal_id);
            }
        }
    }

    /// Inserts a zero-initialised float tensor of the given shape: the
    /// destination an asynchronous operation will write into.
    pub fn put_placeholder(&mut self, slot: u8, shape: Vec<usize>)
        requires
            old(self).wf(),
            crate::tensors::shape_product(shape@) <= usize::MAX,
        ensures
            final(self).wf(),
            final(self).tensor_spec(slot as int) == Some(
                TensorVal::F32 {
                    bits: Seq::new(crate::tensors::shape_product(shape@) as nat, |i: int| 0u32),
                    shape: shape@,
                },
            ),
            forall|s: int|
                0 <= s < SLOT_COUNT && s != slot as int ==> #[trigger] final(self).tensor_spec(s)
                    == old(self).tensor_spec(s),
            forall|s: int|
                0 <= s < SLOT_COUNT ==> #[trigger] final(self).signals_spec(s) == old(
                    self,
                ).signals_spec(s),
            final(self).next_id_spec() == old(self).next_id_spec(),
    {
        let n = match crate::tensors::shape_product_checked(&shape) {
            Some(p) => p,
            None => {
                proof {
                    assert(false);
                }
                0
            },
        };
        let bits = crate::executors::fill_u32(0, n);
        proof {
            assert(bits@ =~= Seq::new(crate::tensors::shape_product(shape@) as nat, |i: int| 0u32));
        }
        let t = ActTensorTypes::f32_from_bits(bits, shape);
        self.put_tensor(slot, t);
    }

    /// Idempotent placeholder creation: leaves an occupied slot alone and
    /// fills an empty one with a zero-initialised tensor.
    pub fn get_or_put_placeholder(&mut self, slot: u8, shape: Vec<usize>)
        requires
            old(self).wf(),
            crate::tensors::shape_product(shape@) <= usize::MAX,
        ensures
            final(self).wf(),
            old(self).tensor_spec(slot as int) is Some ==> *final(self) == *old(self),
            old(self).tensor_spec(slot as int) is None ==> final(self).tensor_spec(slot as int)
                == Some(
                TensorVal::F32 {
                    bits: Seq::new(crate::tensors::shape_product(shape@) as nat, |i: int| 0u32),
                    shape: shape@,
                },
            ),
            forall|s: int|
                0 <= s < SLOT_COUNT && s != slot as int ==> #[trigger] final(self).tensor_spec(s)
                    == old(self).tensor_spec(s),
            forall|s: int|
                0 <= s < SLOT_COUNT ==> #[trigger] final(self).signals_spec(s) == old(
                    self,
                ).signals_spec(s),
            final(self).next_id_spec() == old(self).next_id_spec(),
    {
        if !self.has_tensor(slot) {
            self.put_placeholder(slot, shape);
        }
    }

    /// How many signals wait in a slot's queue.
    pub fn signal_count(&self, slot: u8) -> (r: usize)
        requires
            self.wf(),
        ensures
            r == self.signals_spec(slot as int).len(),
    {
        self.signals[slot as usize].len()
    }

    /// The front signal of a slot's queue, without removing it.
    pub fn peek_signal(&self, slot: u8) -> (r: ReadySignal)
        requires
            self.wf(),
            self.signals_spec(slot as int).len() > 0,
        ensures
            r == self.signals_spec(slot as int)[0],
    {
        self.signals[slot as usize][0]
    }

    /// Removes and returns the front signal of a slot's queue.  Popping
    /// from an empty queue is a caller bug, so the queue must be nonempty.
    pub fn pop_signal(&mut self, slot: u8) -> (r: ReadySignal)
        requires
            old(self).wf(),
            old(self).signals_spec(slot as int).len() > 0,
        ensures
            final(self).wf(),
            r == old(self).signals_spec(slot as int)[0],
            final(self).signals_spec(slot as int) == old(self).signals_spec(slot as int).skip(1),
            forall|s: int|
                0 <= s < SLOT_COUNT && s != slot as int ==> #[trigger] final(self).signals_spec(s)
                    == old(self).signals_spec(s),
            forall|s: int|
                0 <= s < SLOT_COUNT ==> #[trigger] final(self).tensor_spec(s) == old(
                    self,
                ).tensor_spec(s),
            final(self).next_id_spec() == old(self).next_id_spec(),
    {
        let qlen = self.signals[slot as usize].len();
        let front = self.signals[slot as usize][0];
        let mut rest: Vec<ReadySignal> = Vec::new();
        let mut j: usize = 1;
        while j < qlen
            invariant
                1 <= j <= qlen,
                qlen == self.signals@[slot as int]@.len(),
                self.signals@.len() == SLOT_COUNT,
                self == old(self),
                rest@ == self.signals@[slot as int]@.subrange(1, j as int),
            decreases qlen - j,
        {
            let x = self.signals[slot as usize][j];
            rest.push(x);
            proof {
                assert(self.signals@[slot as int]@.subrange(1, j as int).push(
                    self.signals@[slot as int]@[j as int],
                ) =~= self.signals@[slot as int]@.subrange(1, j as int + 1));
            }
            j = j + 1;
        }
        proof {
            assert(rest@ =~= self.signals@[slot as int]@.skip(1));
        }
        self.signals.set(slot as usize, rest);
        proof {
            assert forall|s: int, i: int|
                0 <= s < SLOT_COUNT && 0 <= i < self.signals@[s]@.len() implies (
            #[trigger] self.signals@[s]@[i]).id < self.next_signal_id by {
                if s == slot as int {
                    assert(self.signals@[s]@[i] == old(self).signals@[s]@[i + 1]);
                    assert(old(self).signals@[s]@[i + 1].id < old(self).next_signal_id);
                } else {
                    assert(old(self).signals@[s]@[i].id < old(self).next_signal_id);
                }
            }
        }
        front
    }

    /// Replaces a slot's queue with `n` fresh signals, every one already
    /// fired when `fired` is set.  The new signals carry `n` consecutive,
    /// previously unissued identifiers, so none of them can be confused
    /// with a signal of an earlier definition of the slot.
    pub fn set_fresh_signals(&mut self, slot: u8, n: usize, fired: bool)
        requires
            old(self).wf(),
            n <= 64,
            old(self).next_id_spec() + n <= u64::MAX,
        ensures
            final(self).wf(),
            final(self).signals_spec(slot as int).len() == n,
            forall|i: int|
                0 <= i < n ==> (#[trigger] final(self).signals_spec(slot as int)[i]) == (ReadySignal {
                    id: (old(self).next_id_spec() + i) as u64,
                    fired,
                }),
            forall|i: int|
                0 <= i < n ==> (#[trigger] final(self).signals_spec(slot as int)[i]).id >= old(
                    self,
                ).next_id_spec(),
            forall|s: int|
                0 <= s < SLOT_COUNT && s != slot as int ==> #[trigger] final(self).signals_spec(s)
                    == old(self).signals_spec(s),
            forall|s: int|
                0 <= s < SLOT_COUNT ==> #[trigger] final(self).tensor_spec(s) == old(
                    self,
                ).tensor_spec(s),
            final(self).next_id_spec() == old(self).next_id_spec() + n,
    {
        let mut q: Vec<ReadySignal> = Vec::new();
        let base = self.next_signal_id;
        let mut i: usize = 0;
        while i < n
            invariant
                i <= n,
                base + n <= u64::MAX,
                q@.len() == i,
                forall|j: int|
                    0 <= j < i ==> (#[trigger] q@[j]) == (ReadySignal {
                        id: (base + j) as u64,
                        fired,
                    }),
            decreases n - i,
        {
            q.push(ReadySignal { id: base + (i as u64), fired });
            i = i + 1;
        }
        self.signals.set(slot as usize, q);
        self.next_signal_id = base + (n as u64);
        proof {
            assert forall|s: int, i2: int|
                0 <= s < SLOT_COUNT && 0 <= i2 < self.signals@[s]@.len() implies (
            #[trigger] self.signals@[s]@[i2]).id < self.next_signal_id by {
                if s != slot as int {
                    assert(old(self).signals@[s]@[i2].id < old(self).next_signal_id);
                }
            }
        }
    }

    /// Installs `n` already-fired signals for a synchronously produced
    /// slot, so downstream consumers do not block.
    pub fn enroll_ready(&mut self, slot: u8, n: usize)
        requires
            old(self).wf(),
            n <= 64,
            old(self).next_id_spec() + n <= u64::MAX,
        ensures
            final(self).wf(),
            final(self).signals_spec(slot as int).len() == n,
            forall|i: int|
                0 <= i < n ==> (#[trigger] final(self).signals_spec(slot as int)[i]) == (ReadySignal {
                    id: (old(self).next_id_spec() + i) as u64,
                    fired: true,
                }),
            forall|s: int|
                0 <= s < SLOT_COUNT && s != slot as int ==> #[trigger] final(self).signals_spec(s)
                    == old(self).signals_spec(s),
            forall|s: int|
                0 <= s < SLOT_COUNT ==> #[trigger] final(self).tensor_spec(s) == old(
                    self,
                ).tensor_spec(s),
            final(self).next_id_spec() == old(self).next_id_spec() + n,
    {
        self.set_fresh_signals(slot, n, true)
    }

    /// Keeps only the returned slot's tensor and queue: module return
    /// drops every other slot.
    pub fn retain_only(&mut self, slot: u8)
        requires
            old(self).wf(),
        ensures
            final(self).wf(),
            final(self).tensor_spec(slot as int) == old(self).tensor_spec(slot as int),
            final(self).signals_spec(slot as int) == old(self).signals_spec(slot as int),
            forall|s: int|
                0 <= s < SLOT_COUNT && s != slot as int ==> #[trigger] final(self).tensor_spec(s)
                    is None,
            forall|s: int|
                0 <= s < SLOT_COUNT && s != slot as int ==> (#[trigger] final(self).signals_spec(
                    s,
                )).len() == 0,
            final(self).next_id_spec() == old(self).next_id_spec(),
    {
        let kept_tensor = self.get_tensor(slot);
        let kept_signals = dup_vec(&self.signals[slot as usize]);
        let mut tensors: Vec<Option<ActTensorTypes>> = Vec::new();
        let mut signals: Vec<Vec<ReadySignal>> = Vec::new();
        let mut i: usize = 0;
        while i < SLOT_COUNT
            invariant
                i <= SLOT_COUNT,
                tensors@.len() == i,
                signals@.len() == i,
                old(self).wf(),
                self == old(self),
                kept_tensor is Some <==> old(self).tensor_spec(slot as int) is Some,
                kept_tensor matches Some(t) ==> Some(t@) == old(self).tensor_spec(slot as int)
                    && t.wf(),
                kept_signals@ == old(self).signals_spec(slot as int),
                forall|s: int|
                    0 <= s < i && s != slot as int ==> (#[trigger] tensors@[s]) is None,
                forall|s: int|
                    0 <= s < i && s != slot as int ==> (#[trigger] signals@[s])@.len() == 0,
                forall|s: int|
                    0 <= s < i && s == slot as int ==> ((#[trigger] tensors@[s]) is Some
                        <==> kept_tensor is Some),
                forall|s: int|
                    0 <= s < i && s == slot as int ==> ((#[trigger] tensors@[s]) matches Some(t)
                        ==> kept_tensor matches Some(k) && t@ == k@ && t.wf()),
                forall|s: int|
                    0 <= s < i && s == slot as int ==> (#[trigger] signals@[s])@ == kept_signals@,
            decreases SLOT_COUNT - i,
        {
            if i == slot as usize {
                match &kept_tensor {
                    Some(t) => tensors.push(Some(t.duplicate())),
                    None => tensors.push(None),
                }
                signals.push(dup_vec(&kept_signals));
            } else {
                tensors.push(None);
                signals.push(Vec::new());
            }
            i = i + 1;
        }
        self.tensors = tensors;
        self.signals = signals;
        proof {
            assert forall|s: int, i2: int|
                0 <= s < SLOT_COUNT && 0 <= i2 < self.signals@[s]@.len() implies (
            #[trigger] self.signals@[s]@[i2]).id < self.next_signal_id by {
                assert(self.signals@[s]@ == old(self).signals@[slot as int]@);
                assert(old(self).signals@[slot as int]@[i2].id < old(self).next_signal_id);
            }
            assert forall|s: int|
                0 <= s < SLOT_COUNT implies ((#[trigger] self.tensors@[s]) matches Some(t2)
                ==> t2.wf()) by {}
        }
    }
}

} // verus!
