use vstd::prelude::*;
use crate::schedule::{transition, Action, Event, Manager, Phase};

verus! {

/// The composition point: one independent scheduler per configured sensor.
pub struct Runtime {
    pub managers: Vec<Manager>,
}

impl Runtime {
    /// The schedulers after sensor `i` alone took event `e`.
    pub open spec fn after(managers: Seq<Manager>, i: int, e: Event) -> Seq<Manager> {
        managers.update(i, transition(managers[i], e).0)
    }

    /// One scheduler per period in `periods_ms`, all before boot.
    pub fn new(periods_ms: &Vec<u64>) -> (rt: Runtime)
        ensures
            rt.managers@.len() == periods_ms@.len(),
            forall|i: int| 0 <= i < periods_ms@.len() ==> rt.managers@[i] == (Manager {
                phase: Phase::Booting,
                period_ms: periods_ms@[i],
                next_wake_ms: 0,
                failures: 0,
            }),
    {
        let mut managers: Vec<Manager> = Vec::new();
        let mut i: usize = 0;
        while i < periods_ms.len()
            invariant
                i <= periods_ms@.len(),
                managers@.len() == i,
                forall|k: int| 0 <= k < i ==> managers@[k] == (Manager {
                    phase: Phase::Booting,
                    period_ms: periods_ms@[k],
                    next_wake_ms: 0,
                    failures: 0,
                }),
            decreases periods_ms@.len() - i,
        {
            managers.push(Manager::new(periods_ms[i]));
            i = i + 1;
        }
        Runtime { managers }
    }

    /// Feeds event `e` to sensor `i`'s scheduler only.
    pub fn step(&mut self, i: usize, e: Event) -> (a: Action)
        requires
            i < old(self).managers@.len(),
        ensures
            final(self).managers@ == Self::after(old(self).managers@, i as int, e),
            a == transition(old(self).managers@[i as int], e).1,
    {
        let mut m = self.managers[i];
        let a = m.step(e);
        self.managers.set(i, m);
        a
    }

    /// The indices of the schedulers that terminated on a failed boot.
    pub fn failed(&self) -> (r: Vec<usize>)
        ensures
            forall|k: int| 0 <= k < r@.len() ==> r@[k] < self.managers@.len()
                && self.managers@[r@[k] as int].phase == Phase::Failed,
            forall|j: int| 0 <= j < self.managers@.len() && self.managers@[j].phase == Phase::Failed
                ==> r@.contains(j as usize),
    {
        let mut r: Vec<usize> = Vec::new();
        let mut i: usize = 0;
        while i < self.managers.len()
            invariant
                i <= self.managers@.len(),
                forall|k: int| 0 <= k < r@.len() ==> r@[k] < self.managers@.len()
                    && self.managers@[r@[k] as int].phase == Phase::Failed,
                forall|j: int| 0 <= j < i && self.managers@[j].phase == Phase::Failed
                    ==> r@.contains(j as usize),
            decreases self.managers@.len() - i,
        {
            match self.managers[i].phase {
                Phase::Failed => {
                    let ghost before = r@;
                    r.push(i);
                    assert forall|j: int| 0 <= j <= i && self.managers@[j].phase == Phase::Failed
                        implies r@.contains(j as usize) by {
                        if j < i {
                            let k = choose|k: int| 0 <= k < before.len() && before[k] == j as usize;
                            assert(r@[k] == j as usize);
                        } else {
                            assert(r@[r@.len() - 1] == i);
                        }
                    }
                },
                _ => {},
            }
            i = i + 1;
        }
        r
    }
}

/// Isolation: a failed boot of sensor `i` leaves every other scheduler as it
/// was, so each later event on sensor `j` has the outcome it would have had.
pub proof fn lemma_boot_failure_isolated(managers: Seq<Manager>, i: int, now: u64, j: int, e: Event)
    requires
        0 <= i < managers.len(),
        0 <= j < managers.len(),
        i != j,
    ensures
        Runtime::after(managers, i, Event::Booted { ok: false, now })[j] == managers[j],
        Runtime::after(Runtime::after(managers, i, Event::Booted { ok: false, now }), j, e)[j]
            == transition(managers[j], e).0,
        managers[i].phase == Phase::Booting
            ==> Runtime::after(managers, i, Event::Booted { ok: false, now })[i].phase == Phase::Failed,
{
}

} // verus!
