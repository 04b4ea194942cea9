use vstd::prelude::*;

verus! {

/// The abstract state of the scheduler: for each sensor's unit of work,
/// whether it is running (holds its sensor), and how it ended in the
/// current tick, if it has.
pub ghost struct SchedulerModel {
    pub running: Seq<bool>,
    pub outcomes: Seq<Option<bool>>,
}

impl SchedulerModel {
    pub open spec fn wf(&self) -> bool {
        self.running.len() == self.outcomes.len()
    }

    /// Every unit has returned its sensor.
    pub open spec fn all_idle(&self) -> bool {
        forall|i: int| 0 <= i < self.running.len() ==> !#[trigger] self.running[i]
    }
}

/// A tick starts every unit, and only when all have returned; otherwise it
/// starts nothing.
pub open spec fn begin(m: SchedulerModel) -> SchedulerModel {
    if m.all_idle() {
        SchedulerModel {
            running: Seq::new(m.running.len(), |i: int| true),
            outcomes: Seq::new(m.running.len(), |i: int| None::<bool>),
        }
    } else {
        m
    }
}

/// Unit `u` returns its sensor, having succeeded or not; a unit that is not
/// running cannot finish.
pub open spec fn finish(m: SchedulerModel, u: int, ok: bool) -> SchedulerModel {
    if m.running[u] {
        SchedulerModel {
            running: m.running.update(u, false),
            outcomes: m.outcomes.update(u, Some(ok)),
        }
    } else {
        m
    }
}

/// Drives the ticks: one unit of work per sensor type, all started together
/// and all awaited before the next tick.
pub struct Scheduler {
    running: Vec<bool>,
    outcomes: Vec<Option<bool>>,
}

impl View for Scheduler {
    type V = SchedulerModel;

    closed spec fn view(&self) -> SchedulerModel {
        SchedulerModel { running: self.running@, outcomes: self.outcomes@ }
    }
}

impl Scheduler {
    /// A scheduler for `units` sensor types, none of them running.
    pub fn new(units: usize) -> (s: Scheduler)
        ensures
            s@.wf(),
            s@.running == Seq::new(units as nat, |i: int| false),
            s@.outcomes == Seq::new(units as nat, |i: int| None::<bool>),
    {
        let mut running: Vec<bool> = Vec::new();
        let mut outcomes: Vec<Option<bool>> = Vec::new();
        let mut i: usize = 0;
        while i < units
            invariant
                i <= units,
                running@ == Seq::new(i as nat, |j: int| false),
                outcomes@ == Seq::new(i as nat, |j: int| None::<bool>),
            decreases units - i,
        {
            running.push(false);
            outcomes.push(None);
            i = i + 1;
        }
        Scheduler { running, outcomes }
    }

    /// Number of sensor types.
    pub fn units(&self) -> (r: usize)
        requires
            self@.wf(),
        ensures
            r == self@.running.len(),
    {
        self.running.len()
    }

    /// Whether every unit has returned its sensor.
    pub fn tick_complete(&self) -> (r: bool)
        requires
            self@.wf(),
        ensures
            r == self@.all_idle(),
    {
        let mut i: usize = 0;
        while i < self.running.len()
            invariant
                i <= self.running@.len(),
                forall|j: int| 0 <= j < i ==> !#[trigger] self.running@[j],
            decreases self.running@.len() - i,
        {
            if self.running[i] {
                assert(self@.running[i as int]);
                return false;
            }
            i = i + 1;
        }
        true
    }

    /// Starts a tick: every unit is started if all have returned their
    /// sensors, and `true` is returned; otherwise nothing changes.
    pub fn begin_tick(&mut self) -> (started: bool)
        requires
            old(self)@.wf(),
        ensures
            final(self)@.wf(),
            started == old(self)@.all_idle(),
            final(self)@ == begin(old(self)@),
    {
        if !self.tick_complete() {
            return false;
        }
        let n = self.running.len();
        let mut i: usize = 0;
        while i < n
            invariant
                n == self.running@.len(),
                n == self.outcomes@.len(),
                i <= n,
                forall|j: int| 0 <= j < i ==> #[trigger] self.running@[j],
                forall|j: int| 0 <= j < i ==> #[trigger] self.outcomes@[j] == None::<bool>,
            decreases n - i,
        {
            self.running[i] = true;
            self.outcomes[i] = None;
            i = i + 1;
        }
        assert(self@.running == Seq::new(n as nat, |i: int| true));
        assert(self@.outcomes == Seq::new(n as nat, |i: int| None::<bool>));
        true
    }

    /// Unit `unit` has returned its sensor, with `ok` telling whether its
    /// acquisition and publication succeeded.
    pub fn finish(&mut self, unit: usize, ok: bool)
        requires
            old(self)@.wf(),
            unit < old(self)@.running.len(),
        ensures
            final(self)@.wf(),
            final(self)@ == finish(old(self)@, unit as int, ok),
    {
        if self.running[unit] {
            self.running[unit] = false;
            self.outcomes[unit] = Some(ok);
        }
    }

    /// Whether `unit` is running.
    pub fn is_running(&self, unit: usize) -> (r: bool)
        requires
            unit < self@.running.len(),
        ensures
            r == self@.running[unit as int],
    {
        self.running[unit]
    }

    /// How `unit` ended in the current tick, if it has.
    pub fn outcome(&self, unit: usize) -> (r: Option<bool>)
        requires
            self@.wf(),
            unit < self@.running.len(),
        ensures
            r == self@.outcomes[unit as int],
    {
        self.outcomes[unit]
    }
}

/// No unit is started twice at once: a tick that begins while some unit
/// still holds its sensor starts nothing, and a unit is started only after
/// the previous tick's unit for the same sensor has returned it.
pub proof fn lemma_no_overlap(m: SchedulerModel, u: int)
    requires
        m.wf(),
        0 <= u < m.running.len(),
    ensures
        m.running[u] ==> begin(m) == m,
        begin(m).running[u] && begin(m) != m ==> !m.running[u],
{
}

/// The units of one tick end independently: the failure of one unit leaves
/// every other unit running, and another unit's success in the same tick is
/// recorded whatever the first one's outcome.
pub proof fn lemma_units_independent(m: SchedulerModel, u: int, v: int, ok_u: bool, ok_v: bool)
    requires
        m.wf(),
        0 <= u < m.running.len(),
        0 <= v < m.running.len(),
        u != v,
        m.running[u],
        m.running[v],
    ensures
        finish(m, u, ok_u).running[v],
        finish(m, u, ok_u).outcomes[v] == m.outcomes[v],
        finish(finish(m, u, ok_u), v, ok_v).outcomes[v] == Some(ok_v),
        finish(finish(m, u, ok_u), v, ok_v).outcomes[u] == Some(ok_u),
        finish(finish(m, v, ok_v), u, ok_u) == finish(finish(m, u, ok_u), v, ok_v),
{
    assert(finish(finish(m, v, ok_v), u, ok_u).running =~= finish(
        finish(m, u, ok_u),
        v,
        ok_v,
    ).running);
    assert(finish(finish(m, v, ok_v), u, ok_u).outcomes =~= finish(
        finish(m, u, ok_u),
        v,
        ok_v,
    ).outcomes);
}

} // verus!
