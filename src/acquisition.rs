use crate::sample::{reduces_to, status_from_measurements, AirQualityStatus, RawSample};
use vstd::prelude::*;

verus! {

/// How long a freshly woken sensor is read before its samples are trusted.
#[derive(Clone, Copy, Debug, PartialEq, Eq, Structural)]
pub enum WarmUp {
    /// Discard reads until more than `millis` milliseconds have passed.
    Duration { millis: u64 },
    /// Discard exactly `count` reads.
    Reads { count: u64 },
}

/// What one cycle of a sensor does: how many samples it averages and how it
/// warms up.
#[derive(Clone, Copy, Debug, PartialEq, Eq, Structural)]
pub struct PipelineConfig {
    pub measurements: usize,
    pub warm_up: WarmUp,
}

impl PipelineConfig {
    /// A cycle averages at least one sample.
    pub open spec fn wf(&self) -> bool {
        self.measurements > 0
    }
}

/// Where a cycle stands.
#[derive(Clone, Copy, Debug, PartialEq, Eq, Structural)]
pub enum Phase {
    /// The sensor is to be woken.
    Waking,
    /// A wake was issued; a successful read confirms the sensor is ready.
    Confirming,
    /// Reads are discarded; `reads` counts them, from the time `started_ms`.
    WarmingUp { started_ms: u64, reads: u64 },
    /// Successful reads are kept until the target count is reached.
    Collecting,
    /// The samples are reduced; the sensor is to be put to sleep.
    Sleeping,
    /// The cycle is over.
    Done,
}

/// The bus operation the caller performs next.
#[derive(Clone, Copy, Debug, PartialEq, Eq, Structural)]
pub enum Action {
    Wake,
    Read,
    Sleep,
    Finish,
}

/// The outcome of the last operation, as the caller observed it.
#[derive(Clone, Copy, Debug, PartialEq, Eq)]
pub enum Event {
    Woken { ok: bool },
    /// `sample` is `None` for a failed read; `now_ms` is a monotonic clock
    /// reading taken after the read.
    ReadDone { sample: Option<RawSample>, now_ms: u64 },
    Slept { ok: bool },
}

/// The abstract state of a cycle.
pub ghost struct CycleModel {
    pub config: PipelineConfig,
    pub phase: Phase,
    pub samples: Seq<RawSample>,
    pub failures: u64,
    pub status: Option<AirQualityStatus>,
}

/// The operation a cycle in phase `p` asks for.
pub open spec fn action_for(p: Phase) -> Action {
    match p {
        Phase::Waking => Action::Wake,
        Phase::Confirming => Action::Read,
        Phase::WarmingUp { .. } => Action::Read,
        Phase::Collecting => Action::Read,
        Phase::Sleeping => Action::Sleep,
        Phase::Done => Action::Finish,
    }
}

/// The phase entered once a read has confirmed the sensor at `now_ms`.
pub open spec fn after_confirm(w: WarmUp, now_ms: u64) -> Phase {
    match w {
        WarmUp::Reads { count } => if count == 0 {
            Phase::Collecting
        } else {
            Phase::WarmingUp { started_ms: now_ms, reads: 0 }
        },
        WarmUp::Duration { .. } => Phase::WarmingUp { started_ms: now_ms, reads: 0 },
    }
}

/// Whether warm-up has ended after `reads` discarded reads, the last at `now_ms`.
pub open spec fn warm_up_over(w: WarmUp, started_ms: u64, reads: u64, now_ms: u64) -> bool {
    match w {
        WarmUp::Duration { millis } => now_ms > started_ms + millis,
        WarmUp::Reads { count } => reads >= count,
    }
}

/// A counter incremented, saturating at `u64::MAX`.
pub open spec fn bump(n: u64) -> u64 {
    if n < u64::MAX {
        (n + 1) as u64
    } else {
        n
    }
}

/// One transition of the cycle; the status is left as it was.
pub open spec fn next(m: CycleModel, e: Event) -> CycleModel {
    match (m.phase, e) {
        (Phase::Waking, Event::Woken { .. }) => CycleModel { phase: Phase::Confirming, ..m },
        (Phase::Confirming, Event::ReadDone { sample, now_ms }) => match sample {
            Some(_) => CycleModel { phase: after_confirm(m.config.warm_up, now_ms), ..m },
            None => CycleModel { phase: Phase::Waking, ..m },
        },
        (Phase::WarmingUp { started_ms, reads }, Event::ReadDone { now_ms, .. }) => {
            if warm_up_over(m.config.warm_up, started_ms, bump(reads), now_ms) {
                CycleModel { phase: Phase::Collecting, ..m }
            } else {
                CycleModel { phase: Phase::WarmingUp { started_ms, reads: bump(reads) }, ..m }
            }
        },
        (Phase::Collecting, Event::ReadDone { sample, .. }) => match sample {
            Some(s) => {
                let samples = m.samples.push(s);
                if samples.len() >= m.config.measurements {
                    CycleModel { phase: Phase::Sleeping, samples, ..m }
                } else {
                    CycleModel { samples, ..m }
                }
            },
            None => CycleModel { failures: bump(m.failures), ..m },
        },
        (Phase::Sleeping, Event::Slept { .. }) => CycleModel { phase: Phase::Done, ..m },
        _ => m,
    }
}

/// Whether event `e` ends collection, so that the samples are reduced.
pub open spec fn completes(m: CycleModel, e: Event) -> bool {
    m.phase is Collecting && next(m, e).phase is Sleeping
}

impl CycleModel {
    pub open spec fn wf(&self) -> bool {
        &&& self.config.wf()
        &&& self.samples.len() <= self.config.measurements
        &&& match self.phase {
            Phase::Waking | Phase::Confirming => self.samples.len() == 0 && self.status is None,
            Phase::WarmingUp { reads, .. } => {
                &&& self.samples.len() == 0
                &&& self.status is None
                &&& (self.config.warm_up matches WarmUp::Reads { count } ==> reads < count)
            },
            Phase::Collecting => self.samples.len() < self.config.measurements
                && self.status is None,
            Phase::Sleeping | Phase::Done => {
                &&& self.samples.len() == self.config.measurements
                &&& self.status matches Some(st) && reduces_to(self.samples, st)
            },
        }
    }
}

/// While collecting, a failed read keeps no sample, is counted, and leaves
/// the cycle collecting; collection ends only on the successful read that
/// brings the kept samples to the configured count, so the reduction always
/// sees exactly that many successful samples however many reads failed.
pub proof fn lemma_collection_reaches_target(m: CycleModel, e: Event)
    requires
        m.wf(),
        m.phase is Collecting,
    ensures
        e matches Event::ReadDone { sample: None, .. } ==> {
            &&& next(m, e).phase is Collecting
            &&& next(m, e).samples == m.samples
            &&& next(m, e).failures == bump(m.failures)
        },
        next(m, e).phase is Collecting || next(m, e).phase is Sleeping,
        next(m, e).phase is Collecting ==> next(m, e).samples.len() < m.config.measurements,
        completes(m, e) ==> next(m, e).samples.len() == m.config.measurements,
        completes(m, e) ==> (e matches Event::ReadDone { sample: Some(s), .. } && next(m, e).samples
            == m.samples.push(s)),
{
}

/// The samples of the successful reads among `es`, in order.
pub open spec fn successes(es: Seq<Event>) -> Seq<RawSample>
    decreases es.len(),
{
    if es.len() == 0 {
        Seq::empty()
    } else {
        match es.last() {
            Event::ReadDone { sample: Some(s), .. } => successes(es.drop_last()).push(s),
            _ => successes(es.drop_last()),
        }
    }
}

/// The cycle after the events `es`, in order.
pub open spec fn run(m: CycleModel, es: Seq<Event>) -> CycleModel
    decreases es.len(),
{
    if es.len() == 0 {
        m
    } else {
        next(run(m, es.drop_last()), es.last())
    }
}

/// Fed any sequence of reads, failed ones interleaved anywhere, a collecting
/// cycle keeps exactly the successful samples in order, and it stops
/// collecting exactly when their number reaches the configured count.
pub proof fn lemma_collection_run(m: CycleModel, es: Seq<Event>)
    requires
        m.config.wf(),
        m.phase is Collecting,
        m.samples.len() < m.config.measurements,
        forall|i: int| 0 <= i < es.len() ==> #[trigger] es[i] is ReadDone,
        m.samples.len() + successes(es).len() <= m.config.measurements,
    ensures
        run(m, es).samples == m.samples + successes(es),
        run(m, es).phase is Collecting || run(m, es).phase is Sleeping,
        run(m, es).phase is Sleeping <==> m.samples.len() + successes(es).len()
            == m.config.measurements,
        run(m, es).config == m.config,
    decreases es.len(),
{
    if es.len() == 0 {
        assert(m.samples + successes(es) =~= m.samples);
    } else {
        let init = es.drop_last();
        assert forall|i: int| 0 <= i < init.len() implies #[trigger] init[i] is ReadDone by {
            assert(init[i] == es[i]);
        }
        assert(es[es.len() - 1] is ReadDone);
        lemma_collection_run(m, init);
        match es.last() {
            Event::ReadDone { sample: Some(s), .. } => {
                assert(m.samples + successes(es) =~= (m.samples + successes(init)).push(s));
            },
            _ => {},
        }
    }
}

/// A wake alone never confirms the sensor: whatever the wake returned, a read
/// follows; a successful read ends the wake loop, a failed one starts it over
/// with a new wake.
pub proof fn lemma_ready_only_after_read(
    m: CycleModel,
    ok: bool,
    sample: Option<RawSample>,
    now_ms: u64,
)
    requires
        m.wf(),
    ensures
        m.phase is Waking ==> next(m, Event::Woken { ok }).phase is Confirming,
        m.phase is Waking ==> action_for(next(m, Event::Woken { ok }).phase) == Action::Read,
        m.phase is Confirming && sample is Some ==> next(
            m,
            Event::ReadDone { sample, now_ms },
        ).phase == after_confirm(m.config.warm_up, now_ms),
        m.phase is Confirming && sample is Some ==> !(next(
            m,
            Event::ReadDone { sample, now_ms },
        ).phase is Waking || next(m, Event::ReadDone { sample, now_ms }).phase is Confirming),
        m.phase is Confirming && sample is None ==> next(
            m,
            Event::ReadDone { sample, now_ms },
        ).phase is Waking,
{
}

/// One acquisition cycle of the particulate sensor: wake, confirm, warm up,
/// collect, reduce, sleep.
pub struct Cycle {
    config: PipelineConfig,
    phase: Phase,
    samples: Vec<RawSample>,
    failures: u64,
    status: Option<AirQualityStatus>,
}

impl View for Cycle {
    type V = CycleModel;

    closed spec fn view(&self) -> CycleModel {
        CycleModel {
            config: self.config,
            phase: self.phase,
            samples: self.samples@,
            failures: self.failures,
            status: self.status,
        }
    }
}

fn bump_count(n: u64) -> (r: u64)
    ensures
        r == bump(n),
{
    if n < u64::MAX {
        n + 1
    } else {
        n
    }
}

fn warm_up_done(w: WarmUp, started_ms: u64, reads: u64, now_ms: u64) -> (r: bool)
    ensures
        r == warm_up_over(w, started_ms, reads, now_ms),
{
    match w {
        WarmUp::Duration { millis } => now_ms > started_ms && now_ms - started_ms > millis,
        WarmUp::Reads { count } => reads >= count,
    }
}

fn confirmed_phase(w: WarmUp, now_ms: u64) -> (r: Phase)
    ensures
        r == after_confirm(w, now_ms),
{
    match w {
        WarmUp::Reads { count } => if count == 0 {
            Phase::Collecting
        } else {
            Phase::WarmingUp { started_ms: now_ms, reads: 0 }
        },
        WarmUp::Duration { .. } => Phase::WarmingUp { started_ms: now_ms, reads: 0 },
    }
}

impl Cycle {
    /// A cycle about to wake its sensor.
    pub fn new(config: PipelineConfig) -> (c: Cycle)
        requires
            config.wf(),
        ensures
            c@ == (CycleModel {
                config,
                phase: Phase::Waking,
                samples: Seq::empty(),
                failures: 0,
                status: None,
            }),
            c@.wf(),
    {
        Cycle { config, phase: Phase::Waking, samples: Vec::new(), failures: 0, status: None }
    }

    /// The operation the caller is to perform now.
    pub fn pending(&self) -> (a: Action)
        ensures
            a == action_for(self@.phase),
    {
        match self.phase {
            Phase::Waking => Action::Wake,
            Phase::Confirming => Action::Read,
            Phase::WarmingUp { .. } => Action::Read,
            Phase::Collecting => Action::Read,
            Phase::Sleeping => Action::Sleep,
            Phase::Done => Action::Finish,
        }
    }

    /// Takes the outcome of the pending operation and returns the next one.
    /// An event that does not answer the pending operation changes nothing.
    /// When the last sample is collected the samples are reduced, stamped
    /// with the current local time.
    pub fn step(&mut self, event: Event) -> (a: Action)
        requires
            old(self)@.wf(),
        ensures
            final(self)@.wf(),
            final(self)@.config == next(old(self)@, event).config,
            final(self)@.phase == next(old(self)@, event).phase,
            final(self)@.samples == next(old(self)@, event).samples,
            final(self)@.failures == next(old(self)@, event).failures,
            completes(old(self)@, event) ==> (final(self)@.status matches Some(st) && reduces_to(
                final(self)@.samples,
                st,
            )),
            !completes(old(self)@, event) ==> final(self)@.status == old(self)@.status,
            a == action_for(final(self)@.phase),
    {
        match self.phase {
            Phase::Waking => {
                if let Event::Woken { .. } = event {
                    self.phase = Phase::Confirming;
                }
            },
            Phase::Confirming => {
                if let Event::ReadDone { sample, now_ms } = event {
                    match sample {
                        Some(_) => {
                            self.phase = confirmed_phase(self.config.warm_up, now_ms);
                        },
                        None => {
                            self.phase = Phase::Waking;
                        },
                    }
                }
            },
            Phase::WarmingUp { started_ms, reads } => {
                if let Event::ReadDone { now_ms, .. } = event {
                    let reads = bump_count(reads);
                    if warm_up_done(self.config.warm_up, started_ms, reads, now_ms) {
                        self.phase = Phase::Collecting;
                    } else {
                        self.phase = Phase::WarmingUp { started_ms, reads };
                    }
                }
            },
            Phase::Collecting => {
                if let Event::ReadDone { sample, .. } = event {
                    match sample {
                        Some(s) => {
                            self.samples.push(s);
                            if self.samples.len() >= self.config.measurements {
                                self.status = Some(status_from_measurements(&self.samples));
                                self.phase = Phase::Sleeping;
                            }
                        },
                        None => {
                            self.failures = bump_count(self.failures);
                        },
                    }
                }
            },
            Phase::Sleeping => {
                if let Event::Slept { .. } = event {
                    self.phase = Phase::Done;
                }
            },
            Phase::Done => {},
        }
        self.pending()
    }

    /// The reading of the cycle, once its samples have been reduced.
    pub fn status(&self) -> (r: Option<AirQualityStatus>)
        ensures
            r == self@.status,
    {
        self.status
    }

    pub fn phase(&self) -> (r: Phase)
        ensures
            r == self@.phase,
    {
        self.phase
    }

    /// Failed reads absorbed while collecting, saturating at `u64::MAX`.
    pub fn failures(&self) -> (r: u64)
        ensures
            r == self@.failures,
    {
        self.failures
    }

    /// Samples collected so far.
    pub fn collected(&self) -> (r: usize)
        ensures
            r == self@.samples.len(),
    {
        self.samples.len()
    }
}

} // verus!
