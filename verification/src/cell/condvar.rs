//! Wait queue for the cooperative fused backend: waiter records addressed by
//! identity in a FIFO, preserving push-tail / wake-front / remove-on-cancel
//! semantics without pointer-linked nodes. The embedding program owns the
//! actual wake handles and suspension; this queue decides, exactly, who is
//! woken and when a record leaves the queue.

use vstd::prelude::*;

verus! {

/// Lifecycle flag of one waiter record. `Finished` is the state after a
/// record leaves the queue; queued records are `Running` or `Notified`.
#[derive(Copy, Clone, Eq, PartialEq, Structural, Debug)]
pub enum WaiterState {
    /// Enqueued and suspended; not yet chosen by `notify`.
    Running,
    /// Chosen by `notify`; will leave the queue at its next poll.
    Notified,
    /// Woken and unlinked; never stored in the queue.
    Finished,
}

#[derive(Copy, Clone, Eq, PartialEq, Structural, Debug)]
struct Waiter {
    id: u64,
    state: WaiterState,
}

/// FIFO of waiters for one suspension point.
#[derive(Debug)]
pub struct Condvar {
    queue: Vec<Waiter>,
    next_id: u64,
}

/// Witness that a waiter was notified and unlinked; only `poll_wait` mints
/// one. Consuming it means the wakeup was acted upon; passing it back with
/// `release` hands the wakeup to the next waiter instead.
#[derive(Debug)]
pub struct Guard {
    _witness: (),
}

impl Guard {
    /// Accept the wakeup: the woken task proceeds and the notification is
    /// spent.
    pub fn consume(self) {
    }

    /// Decline the wakeup and pass it on: notifies the queue's next waiter,
    /// returning the identity the embedding program must wake, if any.
    pub fn release(self, condvar: &mut Condvar) -> (woken: Option<u64>)
        requires
            old(condvar).wf(),
        ensures
            final (condvar).wf(),
            final (condvar).ids_used() == old(condvar).ids_used(),
            woken == spec_first_running(old(condvar)@),
            final (condvar)@ == spec_notify(old(condvar)@),
    {
        condvar.notify()
    }
}

/// The identity of the first waiter still marked `Running`, front to back.
pub open spec fn spec_first_running(q: Seq<(u64, WaiterState)>) -> Option<u64>
    decreases q.len(),
{
    if q.len() == 0 {
        None
    } else if q[0].1 is Running {
        Some(q[0].0)
    } else {
        spec_first_running(q.skip(1))
    }
}

/// The queue after a notify: the first `Running` waiter, if any, becomes
/// `Notified`; everything else is unchanged.
pub open spec fn spec_notify(q: Seq<(u64, WaiterState)>) -> Seq<(u64, WaiterState)>
    decreases q.len(),
{
    if q.len() == 0 {
        q
    } else if q[0].1 is Running {
        seq![(q[0].0, WaiterState::Notified)] + q.skip(1)
    } else {
        seq![q[0]] + spec_notify(q.skip(1))
    }
}

/// The position of identity `id` in the queue.
pub open spec fn spec_idx_of(q: Seq<(u64, WaiterState)>, id: u64) -> int {
    choose|i: int| 0 <= i < q.len() && q[i].0 == id
}

/// Whether identity `id` is in the queue.
pub open spec fn spec_has_id(q: Seq<(u64, WaiterState)>, id: u64) -> bool {
    exists|i: int| 0 <= i < q.len() && #[trigger] q[i].0 == id
}

impl Condvar {
    /// The queue as a sequence of (identity, state) records, front first.
    pub closed spec fn view(&self) -> Seq<(u64, WaiterState)> {
        self.queue@.map_values(|w: Waiter| (w.id, w.state))
    }

    /// How many identities have been handed out; bounds every queued id.
    pub closed spec fn ids_used(&self) -> u64 {
        self.next_id
    }

    /// Well-formedness: identities are unique and below the id counter, and
    /// only `Running` or `Notified` records are queued.
    pub closed spec fn wf(&self) -> bool {
        &&& forall|i: int, j: int|
            0 <= i < j < self@.len() ==> (#[trigger] self@[i]).0 != (#[trigger] self@[j]).0
        &&& forall|i: int| 0 <= i < self@.len() ==> (#[trigger] self@[i]).0 < self.next_id
        &&& forall|i: int| 0 <= i < self@.len() ==> !((#[trigger] self@[i]).1 is Finished)
    }

    /// An empty queue.
    pub fn new() -> (r: Self)
        ensures
            r.wf(),
            r@ == Seq::<(u64, WaiterState)>::empty(),
            r.ids_used() == 0,
    {
        let r = Condvar { queue: Vec::new(), next_id: 0 };
        proof {
            assert(r@ =~= Seq::<(u64, WaiterState)>::empty());
        }
        r
    }

    /// Begin waiting: appends a fresh `Running` record at the tail and
    /// returns its identity. The embedding program suspends the caller and
    /// polls with this identity after each wakeup.
    pub fn wait_start(&mut self) -> (id: u64)
        requires
            old(self).wf(),
            old(self).ids_used() < u64::MAX,
        ensures
            final (self).wf(),
            final (self).ids_used() == old(self).ids_used() + 1,
            final (self)@ == old(self)@.push((id, WaiterState::Running)),
            !spec_has_id(old(self)@, id),
            spec_has_id(final (self)@, id),
    {
        let id = self.next_id;
        self.next_id = self.next_id + 1;
        self.queue.push(Waiter { id, state: WaiterState::Running });
        proof {
            assert(self@ =~= old(self)@.push((id, WaiterState::Running)));
            assert(self@[old(self)@.len() as int].0 == id);
        }
        id
    }

    /// Wake the front waiter: the first `Running` record becomes `Notified`
    /// and its identity is returned so the embedding program can wake it.
    pub fn notify(&mut self) -> (woken: Option<u64>)
        requires
            old(self).wf(),
        ensures
            final (self).wf(),
            final (self).ids_used() == old(self).ids_used(),
            woken == spec_first_running(old(self)@),
            final (self)@ == spec_notify(old(self)@),
    {
        proof {
            assert(old(self)@.skip(0) =~= old(self)@);
            assert(old(self)@.take(0) + spec_notify(old(self)@) =~= spec_notify(old(self)@));
        }
        let ghost q0 = old(self)@;
        let mut i: usize = 0;
        while i < self.queue.len()
            invariant
                self.wf(),
                *self == *old(self),
                q0 == self@,
                i <= q0.len(),
                forall|k: int| 0 <= k < i ==> !((#[trigger] q0[k]).1 is Running),
                spec_first_running(q0) == spec_first_running(q0.skip(i as int)),
                spec_notify(q0) == q0.take(i as int) + spec_notify(q0.skip(i as int)),
            decreases q0.len() - i,
        {
            let w = self.queue[i];
            proof {
                assert(q0[i as int] == (w.id, w.state));
            }
            if matches!(w.state, WaiterState::Running) {
                let id = w.id;
                self.queue.remove(i);
                self.queue.insert(i, Waiter { id, state: WaiterState::Notified });
                proof {
                    lemma_skip_first(q0, i as int);
                    assert(self@ =~= q0.take(i as int) + (seq![(q0[i as int].0,
                        WaiterState::Notified)] + q0.skip(i as int + 1)));
                }
                return Some(id);
            }
            proof {
                lemma_skip_step(q0, i as int);
            }
            i = i + 1;
        }
        proof {
            assert(q0.skip(i as int) =~= Seq::<(u64, WaiterState)>::empty());
            assert(self@ =~= spec_notify(q0));
        }
        None
    }

    /// Poll by a waiting task after a wakeup (which may be spurious): if the
    /// record is still `Running` the wait continues; if it was notified, the
    /// record is unlinked and the caller receives the `Guard` witness.
    pub fn poll_wait(&mut self, id: u64) -> (r: Option<Guard>)
        requires
            old(self).wf(),
            spec_has_id(old(self)@, id),
        ensures
            final (self).wf(),
            final (self).ids_used() == old(self).ids_used(),
            ({
                let i = spec_idx_of(old(self)@, id);
                match r {
                    None => old(self)@[i].1 is Running && final (self)@ == old(self)@,
                    Some(_g) => old(self)@[i].1 is Notified && final (self)@ == old(self)@.remove(
                        i),
                }
            }),
    {
        let i = self.position_of(id);
        let w = self.queue[i];
        proof {
            assert(old(self)@[i as int] == (w.id, w.state));
        }
        match w.state {
            WaiterState::Running => None,
            WaiterState::Notified => {
                self.queue.remove(i);
                proof {
                    assert(self@ =~= old(self)@.remove(i as int));
                }
                Some(Guard { _witness: () })
            },
            WaiterState::Finished => {
                proof {
                    assert(false);
                }
                None
            },
        }
    }

    /// Cancel a wait: the record is unlinked; if it had already been chosen
    /// by `notify`, the notification is passed to the next waiter, whose
    /// identity is returned for the embedding program to wake.
    pub fn cancel_wait(&mut self, id: u64) -> (woken: Option<u64>)
        requires
            old(self).wf(),
            spec_has_id(old(self)@, id),
        ensures
            final (self).wf(),
            final (self).ids_used() == old(self).ids_used(),
            ({
                let i = spec_idx_of(old(self)@, id);
                let removed = old(self)@.remove(i);
                if old(self)@[i].1 is Notified {
                    woken == spec_first_running(removed) && final (self)@ == spec_notify(removed)
                } else {
                    woken is None && final (self)@ == removed
                }
            }),
    {
        let i = self.position_of(id);
        let w = self.queue[i];
        proof {
            assert(old(self)@[i as int] == (w.id, w.state));
        }
        self.queue.remove(i);
        proof {
            assert(self@ =~= old(self)@.remove(i as int));
        }
        match w.state {
            WaiterState::Notified => self.notify(),
            _ => None,
        }
    }

    /// Number of queued waiters.
    pub fn len(&self) -> (r: usize)
        ensures
            r == self@.len(),
    {
        self.queue.len()
    }

    fn position_of(&self, id: u64) -> (i: usize)
        requires
            self.wf(),
            spec_has_id(self@, id),
        ensures
            i == spec_idx_of(self@, id),
            i < self@.len(),
            self@[i as int].0 == id,
    {
        let mut i: usize = 0;
        while i < self.queue.len()
            invariant
                self.wf(),
                spec_has_id(self@, id),
                i <= self@.len(),
                forall|k: int| 0 <= k < i ==> (#[trigger] self@[k]).0 != id,
            decreases self@.len() - i,
        {
            if self.queue[i].id == id {
                proof {
                    assert(self@[i as int].0 == id);
                    let j = spec_idx_of(self@, id);
                    assert(0 <= j < self@.len() && self@[j].0 == id);
                    assert(j == i);
                }
                return i;
            }
            proof {
                assert(self@[i as int].0 != id);
            }
            i = i + 1;
        }
        proof {
            let j = spec_idx_of(self@, id);
            assert(0 <= j < self@.len() && self@[j].0 == id);
            assert(false);
        }
        0
    }
}

proof fn lemma_skip_first(q: Seq<(u64, WaiterState)>, i: int)
    requires
        0 <= i < q.len(),
        q[i].1 is Running,
        spec_first_running(q) == spec_first_running(q.skip(i)),
        spec_notify(q) == q.take(i) + spec_notify(q.skip(i)),
    ensures
        spec_first_running(q) == Some(q[i].0),
        spec_notify(q) == q.take(i) + (seq![(q[i].0, WaiterState::Notified)] + q.skip(i + 1)),
{
    assert(q.skip(i)[0] == q[i]);
    assert(q.skip(i).skip(1) =~= q.skip(i + 1));
}

proof fn lemma_skip_step(q: Seq<(u64, WaiterState)>, i: int)
    requires
        0 <= i < q.len(),
        !(q[i].1 is Running),
        spec_first_running(q) == spec_first_running(q.skip(i)),
        spec_notify(q) == q.take(i) + spec_notify(q.skip(i)),
    ensures
        spec_first_running(q) == spec_first_running(q.skip(i + 1)),
        spec_notify(q) == q.take(i + 1) + spec_notify(q.skip(i + 1)),
{
    assert(q.skip(i)[0] == q[i]);
    assert(q.skip(i).skip(1) =~= q.skip(i + 1));
    assert(q.take(i + 1) =~= q.take(i) + seq![q[i]]);
    assert(q.take(i) + (seq![q[i]] + spec_notify(q.skip(i + 1))) =~= (q.take(i) + seq![q[i]])
        + spec_notify(q.skip(i + 1)));
}

} // verus!
