use std::collections::VecDeque;
use vstd::prelude::*;

verus! {

/// What a `Mutex` holds, as a mathematical value: the guarded value while
/// nobody holds the lock (`None` while a guard has it), and the wakers of
/// the tasks waiting for the lock, oldest first.
pub struct LockModel<T, W> {
    pub stored: Option<T>,
    pub queue: Seq<W>,
}

impl<T, W> LockModel<T, W> {
    /// The lock is held by a guard.
    pub open spec fn is_locked(self) -> bool {
        self.stored is None
    }
}

/// One poll of a lock future that registers `waker`: a free lock hands its
/// value out and becomes locked; a held lock queues the waker at the back.
pub open spec fn poll_step<T, W>(m: LockModel<T, W>, waker: W) -> (LockModel<T, W>, Option<T>) {
    match m.stored {
        Some(v) => (LockModel { stored: None, queue: m.queue }, Some(v)),
        None => (LockModel { stored: None, queue: m.queue.push(waker) }, None),
    }
}

/// A guard gives `value` back: the lock is free again and the oldest waiting
/// waker, if any, leaves the queue to be woken.
pub open spec fn unlock_step<T, W>(m: LockModel<T, W>, value: T) -> (LockModel<T, W>, Option<W>) {
    if m.queue.len() > 0 {
        (LockModel { stored: Some(value), queue: m.queue.drop_first() }, Some(m.queue[0]))
    } else {
        (LockModel { stored: Some(value), queue: m.queue }, None)
    }
}

/// A single-threaded mutex for tasks that wait on each other across await
/// points. The value is handed out to at most one holder at a time; tasks
/// that find the lock held are woken in the order they asked for it.
/// `W` is what the caller registers to be woken by (a task's waker).
pub struct Mutex<T, W> {
    value: Option<T>,
    wakers: VecDeque<W>,
}

impl<T, W> View for Mutex<T, W> {
    type V = LockModel<T, W>;

    closed spec fn view(&self) -> LockModel<T, W> {
        LockModel { stored: self.value, queue: self.wakers@ }
    }
}

impl<T, W> Mutex<T, W> {
    /// A free mutex holding `inner`, with nobody waiting.
    pub fn new(inner: T) -> (m: Self)
        ensures
            m@.stored == Some(inner),
            m@.queue == Seq::<W>::empty(),
    {
        Mutex { value: Some(inner), wakers: VecDeque::new() }
    }

    /// Takes the value when the lock is free (the caller now holds it);
    /// a held lock is left as it is and `None` comes back.
    pub fn try_lock(&mut self) -> (got: Option<T>)
        ensures
            got == old(self)@.stored,
            final(self)@ == (LockModel { stored: None::<T>, queue: old(self)@.queue }),
    {
        self.value.take()
    }

    /// Queues `waker` behind the tasks already waiting for the held lock.
    pub fn enqueue(&mut self, waker: W)
        requires
            old(self)@.is_locked(),
        ensures
            final(self)@ == (LockModel { stored: None::<T>, queue: old(self)@.queue.push(waker) }),
    {
        self.wakers.push_back(waker);
    }

    /// Polls for the lock on behalf of the task that `waker` wakes: returns
    /// the value when the lock was free (the caller now holds it), and
    /// otherwise queues `waker` and returns `None`.
    pub fn poll_lock(&mut self, waker: W) -> (got: Option<T>)
        ensures
            (final(self)@, got) == poll_step(old(self)@, waker),
    {
        match self.try_lock() {
            Some(v) => Some(v),
            None => {
                self.enqueue(waker);
                None
            },
        }
    }

    /// The holder gives `value` back. Returns the waker of the task that has
    /// waited longest, which the caller wakes.
    pub fn unlock(&mut self, value: T) -> (woken: Option<W>)
        requires
            old(self)@.is_locked(),
        ensures
            (final(self)@, woken) == unlock_step(old(self)@, value),
    {
        self.value = Some(value);
        self.wakers.pop_front()
    }

    /// Whether a guard holds the lock.
    pub fn is_locked(&self) -> (locked: bool)
        ensures
            locked == self@.is_locked(),
    {
        self.value.is_none()
    }
}

/// Polls once for each waker of `ws`, in order.
pub open spec fn poll_all<T, W>(m: LockModel<T, W>, ws: Seq<W>) -> LockModel<T, W>
    decreases ws.len(),
{
    if ws.len() == 0 {
        m
    } else {
        poll_all(poll_step(m, ws[0]).0, ws.drop_first())
    }
}

/// `k` hand-offs from a held lock: each time the holder gives `value` back,
/// and the task that is woken polls again with its waker. Yields the lock
/// afterwards and the wakers woken, in order.
pub open spec fn handoffs<T, W>(m: LockModel<T, W>, value: T, k: nat) -> (LockModel<T, W>, Seq<W>)
    decreases k,
{
    if k == 0 {
        (m, Seq::empty())
    } else {
        let (freed, woken) = unlock_step(m, value);
        match woken {
            Some(w) => {
                let (relocked, _) = poll_step(freed, w);
                let (last, rest) = handoffs(relocked, value, (k - 1) as nat);
                (last, seq![w] + rest)
            },
            None => (freed, Seq::empty()),
        }
    }
}

/// While the lock is held, no poll obtains the value: every poll leaves the
/// lock held and queues its waker behind those already waiting, in the order
/// of the polls.
pub proof fn lemma_held_lock_queues_in_order<T, W>(m: LockModel<T, W>, ws: Seq<W>)
    requires
        m.is_locked(),
    ensures
        poll_all(m, ws) == (LockModel { stored: None::<T>, queue: m.queue + ws }),
        forall|i: int|
            0 <= i < ws.len() ==> (#[trigger] poll_step(poll_all(m, ws.take(i)), ws[i])).1 is None,
    decreases ws.len(),
{
    if ws.len() == 0 {
        assert(m.queue + ws =~= m.queue);
    } else {
        let m1 = poll_step(m, ws[0]).0;
        lemma_held_lock_queues_in_order(m1, ws.drop_first());
        assert(m1.queue + ws.drop_first() =~= m.queue + ws);
        assert forall|i: int| 0 <= i < ws.len() implies (#[trigger] poll_step(
            poll_all(m, ws.take(i)),
            ws[i],
        )).1 is None by {
            lemma_prefix_stays_locked(m, ws, i);
        }
    }
}

/// Polling any prefix of `ws` on a held lock leaves it held.
proof fn lemma_prefix_stays_locked<T, W>(m: LockModel<T, W>, ws: Seq<W>, i: int)
    requires
        m.is_locked(),
        0 <= i <= ws.len(),
    ensures
        poll_all(m, ws.take(i)).is_locked(),
    decreases i,
{
    if i > 0 {
        let m1 = poll_step(m, ws[0]).0;
        assert(ws.take(i).drop_first() =~= ws.drop_first().take(i - 1));
        lemma_prefix_stays_locked(m1, ws.drop_first(), i - 1);
    }
}

/// When the holder gives a value back while tasks wait, the task that has
/// waited longest is woken, and its next poll obtains exactly that value;
/// the lock is then held again with the remaining tasks still queued in order.
pub proof fn lemma_handoff_passes_value<T, W>(m: LockModel<T, W>, value: T)
    requires
        m.is_locked(),
        m.queue.len() > 0,
    ensures
        unlock_step(m, value).1 == Some(m.queue[0]),
        poll_step(unlock_step(m, value).0, m.queue[0]).1 == Some(value),
        poll_step(unlock_step(m, value).0, m.queue[0]).0 == (LockModel {
            stored: None::<T>,
            queue: m.queue.drop_first(),
        }),
{
}

/// Waiting tasks obtain the lock in the order they queued for it: `k`
/// successive hand-offs wake the first `k` queued wakers, oldest first, and
/// leave the rest queued.
pub proof fn lemma_handoffs_follow_queue_order<T, W>(m: LockModel<T, W>, value: T, k: nat)
    requires
        m.is_locked(),
        k <= m.queue.len(),
    ensures
        handoffs(m, value, k).1 == m.queue.take(k as int),
        handoffs(m, value, k).0 == (LockModel { stored: None::<T>, queue: m.queue.skip(k as int) }),
    decreases k,
{
    if k == 0 {
        assert(m.queue.take(0) =~= Seq::<W>::empty());
        assert(m.queue.skip(0) =~= m.queue);
    } else {
        lemma_handoff_passes_value(m, value);
        let relocked = poll_step(unlock_step(m, value).0, m.queue[0]).0;
        lemma_handoffs_follow_queue_order(relocked, value, (k - 1) as nat);
        assert(seq![m.queue[0]] + m.queue.drop_first().take(k - 1) =~= m.queue.take(k as int));
        assert(m.queue.drop_first().skip(k - 1) =~= m.queue.skip(k as int));
    }
}

/// Tasks that ask a free lock for its value one after the other obtain it
/// in the order they asked: the first gets it at once, the others queue, and
/// the hand-offs that follow wake them in order, each receiving the value the
/// previous holder gave back.
pub proof fn lemma_tasks_acquire_in_request_order<T, W>(value: T, ws: Seq<W>)
    requires
        ws.len() > 0,
    ensures
        ({
            let free = LockModel { stored: Some(value), queue: Seq::<W>::empty() };
            let queued = poll_all(free, ws);
            &&& poll_step(free, ws[0]).1 == Some(value)
            &&& queued == (LockModel { stored: None::<T>, queue: ws.drop_first() })
            &&& handoffs(queued, value, (ws.len() - 1) as nat).1 == ws.drop_first()
        }),
{
    let free = LockModel { stored: Some(value), queue: Seq::<W>::empty() };
    let held = poll_step(free, ws[0]).0;
    lemma_held_lock_queues_in_order(held, ws.drop_first());
    assert(Seq::<W>::empty() + ws.drop_first() =~= ws.drop_first());
    let queued = poll_all(free, ws);
    lemma_handoffs_follow_queue_order(queued, value, (ws.len() - 1) as nat);
    assert(ws.drop_first().take((ws.len() - 1) as int) =~= ws.drop_first());
}

/// Something that happens to a lock: a task polls with its waker, or the
/// holder gives a value back.
pub enum LockEvent<T, W> {
    Poll(W),
    Unlock(T),
}

/// Runs `events` in order from `m`. Yields the lock afterwards, the wakers
/// queued by the polls that found the lock held, in order, and the wakers
/// woken by the give-backs, in order.
pub open spec fn run_events<T, W>(m: LockModel<T, W>, events: Seq<LockEvent<T, W>>) -> (
    LockModel<T, W>,
    Seq<W>,
    Seq<W>,
)
    decreases events.len(),
{
    if events.len() == 0 {
        (m, Seq::empty(), Seq::empty())
    } else {
        match events[0] {
            LockEvent::Poll(w) => {
                let (next, got) = poll_step(m, w);
                let (last, queued, woken) = run_events(next, events.drop_first());
                if got is Some {
                    (last, queued, woken)
                } else {
                    (last, seq![w] + queued, woken)
                }
            },
            LockEvent::Unlock(v) => {
                let (next, w) = unlock_step(m, v);
                let (last, queued, woken) = run_events(next, events.drop_first());
                match w {
                    Some(w) => (last, queued, seq![w] + woken),
                    None => (last, queued, woken),
                }
            },
        }
    }
}

/// Waiting tasks are woken first in, first out, whatever the interleaving of
/// polls and give-backs: the wakers woken, in order, followed by those still
/// waiting, are exactly the wakers that were waiting at the start followed by
/// those queued since, in the order they were queued. So each queued waker is
/// woken once, by the give-back whose turn matches its place in the queue, and
/// a give-back with nobody waiting wakes nobody.
pub proof fn lemma_wakes_first_in_first_out<T, W>(m: LockModel<T, W>, events: Seq<LockEvent<T, W>>)
    ensures
        ({
            let (last, queued, woken) = run_events(m, events);
            woken + last.queue == m.queue + queued
        }),
    decreases events.len(),
{
    if events.len() > 0 {
        match events[0] {
            LockEvent::Poll(w) => {
                let (next, got) = poll_step(m, w);
                lemma_wakes_first_in_first_out(next, events.drop_first());
                let (last, queued, woken) = run_events(next, events.drop_first());
                if got is None {
                    assert(m.queue + (seq![w] + queued) =~= m.queue.push(w) + queued);
                }
            },
            LockEvent::Unlock(v) => {
                let (next, w) = unlock_step(m, v);
                lemma_wakes_first_in_first_out(next, events.drop_first());
                let (last, queued, woken) = run_events(next, events.drop_first());
                if m.queue.len() > 0 {
                    assert(seq![m.queue[0]] + woken + last.queue =~= seq![m.queue[0]] + (
                    m.queue.drop_first() + queued));
                    assert(seq![m.queue[0]] + (m.queue.drop_first() + queued) =~= m.queue
                        + queued);
                }
            },
        }
    } else {
        assert(Seq::<W>::empty() + m.queue =~= m.queue + Seq::<W>::empty());
    }
}

/// How many give-backs `events` holds.
pub open spec fn count_unlocks<T, W>(events: Seq<LockEvent<T, W>>) -> nat
    decreases events.len(),
{
    if events.len() == 0 {
        0
    } else {
        match events[0] {
            LockEvent::Poll(_) => count_unlocks(events.drop_first()),
            LockEvent::Unlock(_) => 1 + count_unlocks(events.drop_first()),
        }
    }
}

/// While tasks wait, every give-back wakes one of them, oldest first: after
/// `c` give-backs (any polls in between), no more than were waiting at the
/// start, exactly the first `c` waiting wakers have been woken, in queue
/// order. So a waker at 0-based place `k` of the queue is woken by the
/// `(k + 1)`-th give-back from then on, and by no earlier one.
pub proof fn lemma_kth_waiter_woken_by_kth_unlock<T, W>(m: LockModel<T, W>, events: Seq<LockEvent<T, W>>)
    requires
        count_unlocks(events) <= m.queue.len(),
    ensures
        run_events(m, events).2 == m.queue.take(count_unlocks(events) as int),
    decreases events.len(),
{
    let c = count_unlocks(events);
    if events.len() == 0 {
        assert(m.queue.take(0) =~= Seq::<W>::empty());
    } else {
        match events[0] {
            LockEvent::Poll(w) => {
                let (next, got) = poll_step(m, w);
                lemma_kth_waiter_woken_by_kth_unlock(next, events.drop_first());
                assert(next.queue.take(c as int) =~= m.queue.take(c as int));
            },
            LockEvent::Unlock(v) => {
                let (next, woke) = unlock_step(m, v);
                lemma_kth_waiter_woken_by_kth_unlock(next, events.drop_first());
                assert(seq![m.queue[0]] + m.queue.drop_first().take(c - 1) =~= m.queue.take(
                    c as int,
                ));
            },
        }
    }
}

} // verus!
