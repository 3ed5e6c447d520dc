//! A bounded executor: units of work wait in a queue, and at most `limit` of
//! them are in flight at any time. The executor only keeps the books; whoever
//! drives it performs the work of a started unit and reports back with the
//! ticket that the start handed out.

use std::collections::VecDeque;
use vstd::prelude::*;

verus! {

/// How many units each stage of a job may have in flight.
pub const CONCURRENCY_LIMIT: usize = 5;

/// The executor as a mathematical value.
pub struct ExecutorView<T> {
    pub limit: nat,
    pub waiting: Seq<T>,
    pub running: Seq<(u64, T)>,
    pub next_ticket: nat,
}

impl<T> ExecutorView<T> {
    /// No more than `limit` units are in flight, and each holds a ticket of
    /// its own that was handed out before.
    pub open spec fn wf(self) -> bool {
        &&& 0 < self.limit
        &&& self.running.len() <= self.limit
        &&& self.next_ticket <= u64::MAX
        &&& forall|i: int| 0 <= i < self.running.len() ==> (#[trigger] self.running[i]).0 < self.next_ticket
        &&& forall|i: int, j: int|
            0 <= i < j < self.running.len() ==> (#[trigger] self.running[i]).0 != (#[trigger] self.running[j]).0
    }

    /// Whether a unit in flight holds `ticket`.
    pub open spec fn holds(self, ticket: u64) -> bool {
        exists|i: int| 0 <= i < self.running.len() && (#[trigger] self.running[i]).0 == ticket
    }

    /// The position among the units in flight of the one that holds `ticket`.
    pub open spec fn slot(self, ticket: u64) -> int {
        choose|i: int| 0 <= i < self.running.len() && (#[trigger] self.running[i]).0 == ticket
    }

    /// The unit in flight that holds `ticket`.
    pub open spec fn unit(self, ticket: u64) -> T {
        self.running[self.slot(ticket)].1
    }

    /// Whether the next waiting unit may start now.
    pub open spec fn can_start(self) -> bool {
        &&& self.waiting.len() > 0
        &&& self.running.len() < self.limit
        &&& self.next_ticket < u64::MAX
    }

    /// Nothing waits and nothing is in flight.
    pub open spec fn idle(self) -> bool {
        self.waiting.len() == 0 && self.running.len() == 0
    }

    /// The state after `unit` joined the end of the queue.
    pub open spec fn submit(self, unit: T) -> Self {
        ExecutorView { waiting: self.waiting.push(unit), ..self }
    }

    /// The state after the first waiting unit started under the next ticket.
    pub open spec fn start(self) -> Self {
        ExecutorView {
            waiting: self.waiting.skip(1),
            running: self.running.push((self.next_ticket as u64, self.waiting[0])),
            next_ticket: self.next_ticket + 1,
            ..self
        }
    }

    /// The state after the first waiting unit left the queue unstarted.
    pub open spec fn withdraw(self) -> Self {
        ExecutorView { waiting: self.waiting.skip(1), ..self }
    }

    /// The state after the unit that holds `ticket` was exchanged for `unit`.
    pub open spec fn replace(self, ticket: u64, unit: T) -> Self {
        ExecutorView { running: self.running.update(self.slot(ticket), (ticket, unit)), ..self }
    }

    /// The state after the unit that holds `ticket` left.
    pub open spec fn finish(self, ticket: u64) -> Self {
        ExecutorView { running: self.running.remove(self.slot(ticket)), ..self }
    }
}

/// Submitting keeps the executor well formed.
pub proof fn submit_preserves_wf<T>(e: ExecutorView<T>, unit: T)
    requires
        e.wf(),
    ensures
        e.submit(unit).wf(),
{
}

/// Starting a unit never exceeds the limit.
pub proof fn start_preserves_wf<T>(e: ExecutorView<T>)
    requires
        e.wf(),
        e.can_start(),
    ensures
        e.start().wf(),
        e.start().holds(e.next_ticket as u64),
        e.start().unit(e.next_ticket as u64) == e.waiting[0],
        !e.holds(e.next_ticket as u64),
{
    let s = e.start();
    let t = e.next_ticket as u64;
    assert(s.running[e.running.len() as int].0 == t);
    assert forall|i: int, j: int| 0 <= i < j < s.running.len() implies (#[trigger] s.running[i]).0
        != (#[trigger] s.running[j]).0 by {
        if j < e.running.len() {
            assert(s.running[i] == e.running[i]);
            assert(s.running[j] == e.running[j]);
        } else {
            assert(s.running[i] == e.running[i]);
        }
    }
    assert forall|i: int| 0 <= i < s.running.len() implies (#[trigger] s.running[i]).0
        < s.next_ticket by {
        if i < e.running.len() {
            assert(s.running[i] == e.running[i]);
        }
    }
    let k = s.slot(t);
    if k < e.running.len() {
        assert(s.running[k] == e.running[k]);
    }
}

/// Finishing a unit keeps the executor well formed and frees one place.
pub proof fn finish_preserves_wf<T>(e: ExecutorView<T>, ticket: u64)
    requires
        e.wf(),
        e.holds(ticket),
    ensures
        e.finish(ticket).wf(),
        e.finish(ticket).running.len() == e.running.len() - 1,
        !e.finish(ticket).holds(ticket),
{
    let k = e.slot(ticket);
    let f = e.finish(ticket);
    assert forall|i: int| 0 <= i < f.running.len() implies (#[trigger] f.running[i]).0
        < f.next_ticket && f.running[i].0 != ticket by {
        if i < k {
            assert(f.running[i] == e.running[i]);
        } else {
            assert(f.running[i] == e.running[i + 1]);
        }
    }
    assert forall|i: int, j: int| 0 <= i < j < f.running.len() implies (#[trigger] f.running[i]).0
        != (#[trigger] f.running[j]).0 by {
        let a = if i < k { i } else { i + 1 };
        let b = if j < k { j } else { j + 1 };
        assert(f.running[i] == e.running[a]);
        assert(f.running[j] == e.running[b]);
    }
}

/// Exchanging a unit in flight keeps the executor well formed, and the
/// ticket then leads to the new unit.
pub proof fn replace_preserves_wf<T>(e: ExecutorView<T>, ticket: u64, unit: T)
    requires
        e.wf(),
        e.holds(ticket),
    ensures
        e.replace(ticket, unit).wf(),
        e.replace(ticket, unit).holds(ticket),
        e.replace(ticket, unit).unit(ticket) == unit,
        e.replace(ticket, unit).running.len() == e.running.len(),
{
    let k = e.slot(ticket);
    let r = e.replace(ticket, unit);
    assert(r.running[k] == (ticket, unit));
    assert forall|i: int| 0 <= i < r.running.len() implies (#[trigger] r.running[i]).0
        == e.running[i].0 by {}
    assert forall|i: int, j: int| 0 <= i < j < r.running.len() implies (#[trigger] r.running[i]).0
        != (#[trigger] r.running[j]).0 by {
        assert(e.running[i].0 != e.running[j].0);
    }
    let m = r.slot(ticket);
    if m < k {
        assert(r.running[m].0 != r.running[k].0);
    } else if k < m {
        assert(r.running[k].0 != r.running[m].0);
    }
}

/// One call on an executor.
pub enum ExecutorStep<T> {
    Submit { unit: T },
    Start,
    Withdraw,
    Replace { ticket: u64, unit: T },
    Finish { ticket: u64 },
}

/// The executor for `limit` units at once that has nothing to do.
pub open spec fn fresh<T>(limit: nat) -> ExecutorView<T> {
    ExecutorView { limit, waiting: Seq::empty(), running: Seq::empty(), next_ticket: 0 }
}

/// The state after one call. A call that cannot be served changes nothing.
pub open spec fn after_step<T>(e: ExecutorView<T>, step: ExecutorStep<T>) -> ExecutorView<T> {
    match step {
        ExecutorStep::Submit { unit } => e.submit(unit),
        ExecutorStep::Start => if e.can_start() {
            e.start()
        } else {
            e
        },
        ExecutorStep::Withdraw => if e.waiting.len() > 0 {
            e.withdraw()
        } else {
            e
        },
        ExecutorStep::Replace { ticket, unit } => if e.holds(ticket) {
            e.replace(ticket, unit)
        } else {
            e
        },
        ExecutorStep::Finish { ticket } => if e.holds(ticket) {
            e.finish(ticket)
        } else {
            e
        },
    }
}

/// The state of an executor for `limit` units after `steps`.
pub open spec fn after_steps<T>(limit: nat, steps: Seq<ExecutorStep<T>>) -> ExecutorView<T>
    decreases steps.len(),
{
    if steps.len() == 0 {
        fresh(limit)
    } else {
        after_step(after_steps(limit, steps.drop_last()), steps.last())
    }
}

/// The units that were submitted during `steps`, in order.
pub open spec fn submitted<T>(steps: Seq<ExecutorStep<T>>) -> Seq<T>
    decreases steps.len(),
{
    if steps.len() == 0 {
        Seq::empty()
    } else {
        match steps.last() {
            ExecutorStep::Submit { unit } => submitted(steps.drop_last()).push(unit),
            _ => submitted(steps.drop_last()),
        }
    }
}

/// The units that left the queue during `steps`, started or withdrawn, in
/// the order in which they left.
pub open spec fn taken<T>(limit: nat, steps: Seq<ExecutorStep<T>>) -> Seq<T>
    decreases steps.len(),
{
    if steps.len() == 0 {
        Seq::empty()
    } else {
        let before = after_steps(limit, steps.drop_last());
        let earlier = taken(limit, steps.drop_last());
        match steps.last() {
            ExecutorStep::Start => if before.can_start() {
                earlier.push(before.waiting[0])
            } else {
                earlier
            },
            ExecutorStep::Withdraw => if before.waiting.len() > 0 {
                earlier.push(before.waiting[0])
            } else {
                earlier
            },
            _ => earlier,
        }
    }
}

/// Whatever calls are made on an executor, no more than `limit` units are
/// in flight, and no unit starts twice: the units leave the queue in the
/// order in which they were submitted, each once, and those that have not
/// left still wait.
pub proof fn units_start_once_and_within_limit<T>(limit: nat, steps: Seq<ExecutorStep<T>>)
    requires
        limit > 0,
    ensures
        after_steps(limit, steps).wf(),
        after_steps(limit, steps).limit == limit,
        after_steps(limit, steps).running.len() <= limit,
        submitted(steps) == taken(limit, steps) + after_steps(limit, steps).waiting,
    decreases steps.len(),
{
    if steps.len() == 0 {
        assert(submitted(steps) =~= taken(limit, steps) + after_steps(limit, steps).waiting);
    } else {
        let earlier = steps.drop_last();
        units_start_once_and_within_limit(limit, earlier);
        let before = after_steps(limit, earlier);
        let after = after_steps(limit, steps);
        match steps.last() {
            ExecutorStep::Submit { unit } => {
                assert(submitted(steps) =~= taken(limit, steps) + after.waiting);
            },
            ExecutorStep::Start => {
                if before.can_start() {
                    start_preserves_wf(before);
                }
                assert(submitted(steps) =~= taken(limit, steps) + after.waiting);
            },
            ExecutorStep::Withdraw => {
                assert(submitted(steps) =~= taken(limit, steps) + after.waiting);
            },
            ExecutorStep::Replace { ticket, unit } => {
                if before.holds(ticket) {
                    replace_preserves_wf(before, ticket, unit);
                }
            },
            ExecutorStep::Finish { ticket } => {
                if before.holds(ticket) {
                    finish_preserves_wf(before, ticket);
                }
            },
        }
    }
}

/// A queue of units of work with a cap on the number in flight.
#[derive(Debug)]
pub struct Executor<T> {
    limit: usize,
    waiting: VecDeque<T>,
    running: Vec<(u64, T)>,
    next_ticket: u64,
}

impl<T: DeepView> View for Executor<T> {
    type V = ExecutorView<T::V>;

    closed spec fn view(&self) -> ExecutorView<T::V> {
        ExecutorView {
            limit: self.limit as nat,
            waiting: self.waiting.deep_view(),
            running: self.running.deep_view(),
            next_ticket: self.next_ticket as nat,
        }
    }
}

impl<T: DeepView> Executor<T> {
    /// An executor with nothing to do that lets `limit` units run at once.
    pub fn new(limit: usize) -> (e: Self)
        requires
            limit > 0,
        ensures
            e@.wf(),
            e@ == (ExecutorView::<T::V> {
                limit: limit as nat,
                waiting: Seq::empty(),
                running: Seq::empty(),
                next_ticket: 0,
            }),
    {
        let e = Executor { limit, waiting: VecDeque::new(), running: Vec::new(), next_ticket: 0 };
        assert(e.waiting.deep_view() =~= Seq::<T::V>::empty());
        assert(e.running.deep_view() =~= Seq::<(u64, T::V)>::empty());
        e
    }

    /// Adds `unit` at the end of the queue.
    pub fn submit(&mut self, unit: T)
        requires
            old(self)@.wf(),
        ensures
            final(self)@ == old(self)@.submit(unit.deep_view()),
            final(self)@.wf(),
    {
        self.waiting.push_back(unit);
        assert(self.waiting.deep_view() =~= old(self).waiting.deep_view().push(unit.deep_view()));
    }

    /// Starts the unit that has waited longest, unless the limit is reached
    /// or nothing waits, and returns its ticket.
    pub fn start(&mut self) -> (r: Option<u64>)
        requires
            old(self)@.wf(),
        ensures
            final(self)@.wf(),
            match r {
                Some(ticket) => {
                    &&& old(self)@.can_start()
                    &&& ticket == old(self)@.next_ticket
                    &&& final(self)@ == old(self)@.start()
                },
                None => !old(self)@.can_start() && final(self)@ == old(self)@,
            },
    {
        if self.running.len() >= self.limit || self.next_ticket == u64::MAX {
            return None;
        }
        match self.waiting.pop_front() {
            None => None,
            Some(unit) => {
                let ticket: u64 = self.next_ticket;
                proof {
                    start_preserves_wf(old(self)@);
                    assert(old(self)@.waiting.skip(1) =~= self.waiting.deep_view());
                }
                self.running.push((ticket, unit));
                self.next_ticket = ticket + 1;
                assert(self.running.deep_view() =~= old(self).running.deep_view().push(
                    (ticket, unit.deep_view()),
                ));
                Some(ticket)
            },
        }
    }

    /// The unit that has waited longest, if any waits.
    pub fn next_waiting(&self) -> (r: Option<&T>)
        ensures
            match r {
                Some(u) => self@.waiting.len() > 0 && u.deep_view() == self@.waiting[0],
                None => self@.waiting.len() == 0,
            },
    {
        if self.waiting.len() == 0 {
            None
        } else {
            Some(&self.waiting[0])
        }
    }

    /// Takes the unit that has waited longest out of the queue without
    /// starting it.
    pub fn withdraw(&mut self) -> (r: Option<T>)
        requires
            old(self)@.wf(),
        ensures
            final(self)@.wf(),
            match r {
                Some(u) => {
                    &&& old(self)@.waiting.len() > 0
                    &&& u.deep_view() == old(self)@.waiting[0]
                    &&& final(self)@ == old(self)@.withdraw()
                },
                None => old(self)@.waiting.len() == 0 && final(self)@ == old(self)@,
            },
    {
        let r = self.waiting.pop_front();
        assert(r is Some ==> old(self)@.waiting.skip(1) =~= self.waiting.deep_view());
        r
    }

    /// The position among the units in flight of the one that holds `ticket`.
    fn find(&self, ticket: u64) -> (r: Option<usize>)
        requires
            self@.wf(),
        ensures
            match r {
                Some(i) => self@.holds(ticket) && i == self@.slot(ticket) && i < self.running.len(),
                None => !self@.holds(ticket),
            },
    {
        let mut i: usize = 0;
        while i < self.running.len()
            invariant
                i <= self.running.len(),
                self@.wf(),
                self@.running.len() == self.running.len(),
                forall|k: int| 0 <= k < i ==> (#[trigger] self@.running[k]).0 != ticket,
            decreases self.running.len() - i,
        {
            assert(self@.running[i as int].0 == self.running[i as int].0);
            if self.running[i].0 == ticket {
                proof {
                    let k = self@.slot(ticket);
                    if k < i {
                        assert(self@.running[k].0 != ticket);
                    } else if k > i {
                        assert(self@.running[i as int].0 != self@.running[k].0);
                    }
                }
                return Some(i);
            }
            i += 1;
        }
        None
    }

    /// The unit in flight under `ticket`, if there is one.
    pub fn unit(&self, ticket: u64) -> (r: Option<&T>)
        requires
            self@.wf(),
        ensures
            match r {
                Some(u) => self@.holds(ticket) && u.deep_view() == self@.unit(ticket),
                None => !self@.holds(ticket),
            },
    {
        match self.find(ticket) {
            Some(i) => {
                assert(self@.running[i as int].1 == self.running[i as int].1.deep_view());
                Some(&self.running[i].1)
            },
            None => None,
        }
    }

    /// Exchanges the unit in flight under `ticket` for `unit` and returns the
    /// unit that stood there. A ticket that no unit in flight holds changes
    /// nothing, and `unit` is dropped.
    pub fn replace(&mut self, ticket: u64, unit: T) -> (r: Option<T>)
        requires
            old(self)@.wf(),
        ensures
            final(self)@.wf(),
            match r {
                Some(u) => {
                    &&& old(self)@.holds(ticket)
                    &&& u.deep_view() == old(self)@.unit(ticket)
                    &&& final(self)@ == old(self)@.replace(ticket, unit.deep_view())
                },
                None => !old(self)@.holds(ticket) && final(self)@ == old(self)@,
            },
    {
        match self.find(ticket) {
            Some(i) => {
                proof {
                    replace_preserves_wf(old(self)@, ticket, unit.deep_view());
                }
                let entry = self.running.remove(i);
                self.running.insert(i, (ticket, unit));
                assert(self.running.deep_view() =~= old(self).running.deep_view().update(
                    i as int,
                    (ticket, unit.deep_view()),
                ));
                Some(entry.1)
            },
            None => None,
        }
    }

    /// Takes the unit that holds `ticket` out of flight and returns it. A
    /// ticket that no unit in flight holds changes nothing.
    pub fn finish(&mut self, ticket: u64) -> (r: Option<T>)
        requires
            old(self)@.wf(),
        ensures
            final(self)@.wf(),
            match r {
                Some(u) => {
                    &&& old(self)@.holds(ticket)
                    &&& u.deep_view() == old(self)@.unit(ticket)
                    &&& final(self)@ == old(self)@.finish(ticket)
                },
                None => !old(self)@.holds(ticket) && final(self)@ == old(self)@,
            },
    {
        match self.find(ticket) {
            Some(i) => {
                proof {
                    finish_preserves_wf(old(self)@, ticket);
                }
                let entry = self.running.remove(i);
                assert(self.running.deep_view() =~= old(self).running.deep_view().remove(i as int));
                Some(entry.1)
            },
            None => None,
        }
    }

    /// How many units are in flight.
    pub fn in_flight(&self) -> (n: usize)
        ensures
            n == self@.running.len(),
    {
        self.running.len()
    }

    /// How many units wait for a start.
    pub fn queued(&self) -> (n: usize)
        ensures
            n == self@.waiting.len(),
    {
        self.waiting.len()
    }

    /// The cap on the number of units in flight.
    pub fn limit(&self) -> (n: usize)
        ensures
            n == self@.limit,
    {
        self.limit
    }

    /// Whether nothing waits and nothing is in flight.
    pub fn is_idle(&self) -> (r: bool)
        ensures
            r == self@.idle(),
    {
        self.waiting.len() == 0 && self.running.len() == 0
    }
}

} // verus!
