//! The receive buffer pool: a fixed set of buffers, one per slot of the receive
//! queue, that circulate between the driver and the device.
//!
//! A slot is `Owned` while the driver holds it. Submitting it puts it on loan
//! to the queue, where it is `Available` until the device has written a packet
//! into it and `Used` from then on. Taking a used slot back ends the loan. The
//! contents of a slot can be read only while it is owned.

use crate::error::SocketError;
use vstd::prelude::*;

verus! {

/// The number of slots of each queue.
pub const QUEUE_SIZE: usize = 8;

/// The size in bytes of each receive buffer.
pub const RX_BUFFER_SIZE: usize = 512;

/// Where a slot of the pool is in its cycle.
#[derive(Copy, Clone, Debug, PartialEq, Eq, Structural)]
pub enum SlotState {
    /// Held by the driver.
    Owned,
    /// On loan to the queue; the device may write into it.
    Available,
    /// On loan to the queue; the device has written a packet into it.
    Used,
}

/// The pool as contracts see it.
pub struct RxPoolView {
    /// The contents of each slot's buffer.
    pub buffers: Seq<Seq<u8>>,
    /// The state of each slot.
    pub states: Seq<SlotState>,
    /// The used slots, in the order in which the device finished them.
    pub used: Seq<usize>,
}

impl RxPoolView {
    /// Every slot has a buffer of the fixed size and a state, and `used` lists
    /// exactly the slots in state `Used`, each once.
    pub open spec fn wf(self) -> bool {
        &&& self.buffers.len() == QUEUE_SIZE
        &&& self.states.len() == QUEUE_SIZE
        &&& forall|i: int| 0 <= i < QUEUE_SIZE ==> (#[trigger] self.buffers[i]).len() == RX_BUFFER_SIZE
        &&& forall|k: int|
            0 <= k < self.used.len() ==> (#[trigger] self.used[k]) < QUEUE_SIZE
                && self.states[self.used[k] as int] == SlotState::Used
        &&& forall|j: int, k: int|
            0 <= j < k < self.used.len() ==> #[trigger] self.used[j] != #[trigger] self.used[k]
        &&& forall|i: int|
            0 <= i < QUEUE_SIZE && #[trigger] self.states[i] == SlotState::Used
                ==> self.used.contains(i as usize)
    }

    /// Whether `slot` is on loan to the queue.
    pub open spec fn on_loan(self, slot: int) -> bool {
        0 <= slot < self.states.len() && self.states[slot] != SlotState::Owned
    }

    /// The pool in which every slot is owned and every buffer is zeroed.
    pub open spec fn fresh() -> RxPoolView {
        RxPoolView {
            buffers: Seq::new(
                QUEUE_SIZE as nat,
                |i: int| Seq::new(RX_BUFFER_SIZE as nat, |k: int| 0u8),
            ),
            states: Seq::new(QUEUE_SIZE as nat, |i: int| SlotState::Owned),
            used: Seq::empty(),
        }
    }

    /// Why `slot` cannot be submitted, if it cannot.
    pub open spec fn submit_error(self, slot: usize) -> Option<SocketError> {
        if slot >= self.states.len() {
            Some(SocketError::WrongToken)
        } else if self.states[slot as int] != SlotState::Owned {
            Some(SocketError::QueueFull)
        } else {
            None
        }
    }

    /// The pool after `slot` was submitted; unchanged if it cannot be.
    pub open spec fn submit(self, slot: usize) -> RxPoolView {
        if self.submit_error(slot) is Some {
            self
        } else {
            RxPoolView { states: self.states.update(slot as int, SlotState::Available), ..self }
        }
    }

    /// Why the device cannot write `data` into `slot`, if it cannot.
    pub open spec fn fill_error(self, slot: usize, data: Seq<u8>) -> Option<SocketError> {
        if slot >= self.states.len() || self.states[slot as int] != SlotState::Available {
            Some(SocketError::WrongToken)
        } else if data.len() > self.buffers[slot as int].len() {
            Some(SocketError::BufferTooShort)
        } else {
            None
        }
    }

    /// The pool after the device wrote `data` to the front of the buffer of
    /// `slot` and marked the slot used; unchanged if it cannot.
    pub open spec fn fill(self, slot: usize, data: Seq<u8>) -> RxPoolView {
        if self.fill_error(slot, data) is Some {
            self
        } else {
            RxPoolView {
                buffers: self.buffers.update(
                    slot as int,
                    data + self.buffers[slot as int].skip(data.len() as int),
                ),
                states: self.states.update(slot as int, SlotState::Used),
                used: self.used.push(slot),
            }
        }
    }

    /// The slot that the device finished first among those still used, if any.
    pub open spec fn first_used(self) -> Option<usize> {
        if self.used.len() == 0 {
            None
        } else {
            Some(self.used[0])
        }
    }

    /// The pool after the driver took back the first used slot; unchanged if
    /// there is none.
    pub open spec fn take(self) -> RxPoolView {
        if self.used.len() == 0 {
            self
        } else {
            RxPoolView {
                states: self.states.update(self.used[0] as int, SlotState::Owned),
                used: self.used.drop_first(),
                ..self
            }
        }
    }

    /// The pool after the first used slot was taken back and submitted again
    /// at once.
    pub open spec fn recycle(self) -> RxPoolView {
        match self.first_used() {
            Some(slot) => self.take().submit(slot),
            None => self,
        }
    }

    /// Submitting keeps the pool well-formed.
    pub proof fn lemma_submit_wf(self, slot: usize)
        requires
            self.wf(),
        ensures
            self.submit(slot).wf(),
    {
        let next = self.submit(slot);
        if self.submit_error(slot) is None {
            assert forall|i: int|
                0 <= i < QUEUE_SIZE && #[trigger] next.states[i] == SlotState::Used implies next.used.contains(
                i as usize,
            ) by {
                assert(self.states[i] == SlotState::Used);
            }
        }
    }

    /// A write by the device keeps the pool well-formed.
    pub proof fn lemma_fill_wf(self, slot: usize, data: Seq<u8>)
        requires
            self.wf(),
        ensures
            self.fill(slot, data).wf(),
    {
        let next = self.fill(slot, data);
        if self.fill_error(slot, data) is None {
            assert forall|k: int| 0 <= k < next.used.len() implies (#[trigger] next.used[k])
                < QUEUE_SIZE && next.states[next.used[k] as int] == SlotState::Used by {
                if k < self.used.len() {
                    assert(next.used[k] == self.used[k]);
                }
            }
            assert forall|j: int, k: int| 0 <= j < k < next.used.len() implies #[trigger] next.used[j]
                != #[trigger] next.used[k] by {
                if k == self.used.len() {
                    assert(next.used[j] == self.used[j]);
                    assert(self.states[self.used[j] as int] == SlotState::Used);
                } else {
                    assert(next.used[j] == self.used[j] && next.used[k] == self.used[k]);
                }
            }
            assert forall|i: int|
                0 <= i < QUEUE_SIZE && #[trigger] next.states[i] == SlotState::Used implies next.used.contains(
                i as usize,
            ) by {
                if i == slot {
                    assert(next.used[self.used.len() as int] == slot);
                } else {
                    assert(self.states[i] == SlotState::Used);
                    let k = choose|k: int| 0 <= k < self.used.len() && self.used[k] == i as usize;
                    assert(next.used[k] == i as usize);
                }
            }
        }
    }

    /// Taking a used slot back keeps the pool well-formed and makes that slot
    /// owned.
    pub proof fn lemma_take_wf(self)
        requires
            self.wf(),
        ensures
            self.take().wf(),
            self.first_used() matches Some(slot) ==> slot < QUEUE_SIZE && self.states[slot as int]
                == SlotState::Used && self.take().states[slot as int] == SlotState::Owned,
    {
        let next = self.take();
        if self.used.len() > 0 {
            let slot = self.used[0];
            assert forall|k: int| 0 <= k < next.used.len() implies (#[trigger] next.used[k])
                < QUEUE_SIZE && next.states[next.used[k] as int] == SlotState::Used by {
                assert(next.used[k] == self.used[k + 1]);
                assert(self.used[0] != self.used[k + 1]);
            }
            assert forall|j: int, k: int| 0 <= j < k < next.used.len() implies #[trigger] next.used[j]
                != #[trigger] next.used[k] by {
                assert(next.used[j] == self.used[j + 1] && next.used[k] == self.used[k + 1]);
            }
            assert forall|i: int|
                0 <= i < QUEUE_SIZE && #[trigger] next.states[i] == SlotState::Used implies next.used.contains(
                i as usize,
            ) by {
                assert(self.states[i] == SlotState::Used);
                let k = choose|k: int| 0 <= k < self.used.len() && self.used[k] == i as usize;
                assert(k != 0);
                assert(next.used[k - 1] == i as usize);
            }
        }
    }

    /// A slot that is taken back and submitted again at once returns to the
    /// queue under the same index: it is available again, the slot that was
    /// behind it in the used order is now first, and no other slot and no
    /// buffer has changed.
    pub proof fn lemma_recycle(self)
        requires
            self.wf(),
            self.used.len() > 0,
        ensures
            self.take().submit_error(self.used[0]) is None,
            self.recycle().wf(),
            self.recycle().buffers == self.buffers,
            self.recycle().states == self.states.update(
                self.used[0] as int,
                SlotState::Available,
            ),
            self.recycle().used == self.used.drop_first(),
            forall|i: int| 0 <= i < QUEUE_SIZE ==> (self.recycle().on_loan(i) <==> self.on_loan(i)),
    {
        self.lemma_take_wf();
        self.take().lemma_submit_wf(self.used[0]);
        assert(self.recycle().states =~= self.states.update(
            self.used[0] as int,
            SlotState::Available,
        ));
    }
}

/// The receive buffer pool.
pub struct RxPool {
    buffers: Vec<Vec<u8>>,
    states: Vec<SlotState>,
    used: Vec<usize>,
}

impl View for RxPool {
    type V = RxPoolView;

    closed spec fn view(&self) -> RxPoolView {
        RxPoolView {
            buffers: Seq::new(self.buffers@.len(), |i: int| self.buffers@[i]@),
            states: self.states@,
            used: self.used@,
        }
    }
}

/// A buffer of `RX_BUFFER_SIZE` zero bytes, allocated by
/// `zerocopy::FromBytes::new_box_zeroed` for a byte array of that size.
#[verifier::external_body]
fn zeroed_buffer() -> (buffer: Vec<u8>)
    ensures
        buffer@ == Seq::new(RX_BUFFER_SIZE as nat, |k: int| 0u8),
{
    let boxed: Box<[u8]> = <[u8; RX_BUFFER_SIZE] as zerocopy::FromBytes>::new_box_zeroed();
    boxed.into_vec()
}

/// Writes `data` over the front of `buffer`.
fn overwrite_front(buffer: &mut Vec<u8>, data: &[u8])
    requires
        data@.len() <= old(buffer)@.len(),
    ensures
        final(buffer)@ == data@ + old(buffer)@.skip(data@.len() as int),
{
    let mut k: usize = 0;
    while k < data.len()
        invariant
            k <= data@.len() <= buffer@.len(),
            buffer@.len() == old(buffer)@.len(),
            forall|j: int| 0 <= j < k ==> buffer@[j] == data@[j],
            forall|j: int| k <= j < buffer@.len() ==> buffer@[j] == old(buffer)@[j],
        decreases data@.len() - k,
    {
        buffer[k] = data[k];
        k += 1;
    }
    assert(buffer@ =~= data@ + old(buffer)@.skip(data@.len() as int));
}

impl RxPool {
    /// Whether the pool is well-formed. Every operation keeps it so.
    pub open spec fn wf(&self) -> bool {
        self@.wf()
    }

    /// Allocates the pool: zeroed buffers, every slot owned by the driver.
    pub fn new() -> (pool: RxPool)
        ensures
            pool.wf(),
            pool@ == RxPoolView::fresh(),
    {
        let mut buffers: Vec<Vec<u8>> = Vec::with_capacity(QUEUE_SIZE);
        let mut states: Vec<SlotState> = Vec::with_capacity(QUEUE_SIZE);
        let mut i: usize = 0;
        while i < QUEUE_SIZE
            invariant
                i <= QUEUE_SIZE,
                buffers@.len() == i,
                states@.len() == i,
                forall|j: int|
                    0 <= j < i ==> (#[trigger] buffers@[j])@ == Seq::new(
                        RX_BUFFER_SIZE as nat,
                        |k: int| 0u8,
                    ),
                forall|j: int| 0 <= j < i ==> #[trigger] states@[j] == SlotState::Owned,
            decreases QUEUE_SIZE - i,
        {
            buffers.push(zeroed_buffer());
            states.push(SlotState::Owned);
            i += 1;
        }
        let pool = RxPool { buffers, states, used: Vec::new() };
        assert(pool@.buffers =~= RxPoolView::fresh().buffers);
        assert(pool@.states =~= RxPoolView::fresh().states);
        assert(pool@.used =~= RxPoolView::fresh().used);
        pool
    }

    /// Hands the buffer of `slot` to the queue for the device to write into.
    ///
    /// Fails with `WrongToken` if there is no such slot and with `QueueFull` if
    /// the slot is on loan already; the pool is then unchanged.
    pub fn submit(&mut self, slot: usize) -> (submitted: Result<(), SocketError>)
        requires
            old(self).wf(),
        ensures
            final(self).wf(),
            final(self)@ == old(self)@.submit(slot),
            submitted == (match old(self)@.submit_error(slot) {
                Some(error) => Err::<(), SocketError>(error),
                None => Ok(()),
            }),
    {
        if slot >= self.states.len() {
            return Err(SocketError::WrongToken);
        }
        if !matches!(self.states[slot], SlotState::Owned) {
            return Err(SocketError::QueueFull);
        }
        self.states[slot] = SlotState::Available;
        proof {
            old(self)@.lemma_submit_wf(slot);
            assert(self@.buffers =~= old(self)@.buffers);
        }
        Ok(())
    }

    /// Takes back the slot that the device finished first, if it has finished
    /// any. The slot is owned by the driver from then on.
    pub fn try_take_filled(&mut self) -> (slot: Option<usize>)
        requires
            old(self).wf(),
        ensures
            final(self).wf(),
            final(self)@ == old(self)@.take(),
            slot == old(self)@.first_used(),
    {
        if self.used.len() == 0 {
            return None;
        }
        let slot = self.used.remove(0);
        proof {
            old(self)@.lemma_take_wf();
        }
        self.states[slot] = SlotState::Owned;
        proof {
            assert(self@.buffers =~= old(self)@.buffers);
            assert(self@.used =~= old(self)@.used.drop_first());
        }
        Some(slot)
    }

    /// The device's side of the queue: writes `data` to the front of the
    /// buffer of `slot` and marks the slot used.
    ///
    /// Fails with `WrongToken` unless `slot` is available to the device, and
    /// with `BufferTooShort` if `data` is longer than the buffer; the pool is
    /// then unchanged.
    pub fn fill(&mut self, slot: usize, data: &[u8]) -> (filled: Result<(), SocketError>)
        requires
            old(self).wf(),
        ensures
            final(self).wf(),
            final(self)@ == old(self)@.fill(slot, data@),
            filled == (match old(self)@.fill_error(slot, data@) {
                Some(error) => Err::<(), SocketError>(error),
                None => Ok(()),
            }),
    {
        if slot >= self.states.len() {
            return Err(SocketError::WrongToken);
        }
        if !matches!(self.states[slot], SlotState::Available) {
            return Err(SocketError::WrongToken);
        }
        if data.len() > self.buffers[slot].len() {
            return Err(SocketError::BufferTooShort);
        }
        overwrite_front(&mut self.buffers[slot], data);
        self.states[slot] = SlotState::Used;
        self.used.push(slot);
        proof {
            old(self)@.lemma_fill_wf(slot, data@);
            assert(self@.buffers =~= old(self)@.fill(slot, data@).buffers);
        }
        Ok(())
    }

    /// The state of `slot`, if there is such a slot.
    pub fn state(&self, slot: usize) -> (state: Option<SlotState>)
        requires
            self.wf(),
        ensures
            state == (if slot < QUEUE_SIZE {
                Some(self@.states[slot as int])
            } else {
                None
            }),
    {
        if slot < self.states.len() {
            Some(self.states[slot])
        } else {
            None
        }
    }

    /// The contents of the buffer of `slot`, which can be read only while the
    /// driver owns the slot.
    pub fn buffer(&self, slot: usize) -> (buffer: Option<&[u8]>)
        requires
            self.wf(),
        ensures
            self@.submit_error(slot) is None ==> buffer is Some && buffer.unwrap()@
                == self@.buffers[slot as int],
            self@.submit_error(slot) is Some ==> buffer is None,
    {
        if slot < self.states.len() && matches!(self.states[slot], SlotState::Owned) {
            Some(self.buffers[slot].as_slice())
        } else {
            None
        }
    }
}

} // verus!
