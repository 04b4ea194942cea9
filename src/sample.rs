use vstd::prelude::*;

verus! {

/// One frame of the particulate sensor: three concentration channels.
#[derive(Clone, Copy, Debug, PartialEq, Eq, Structural)]
pub struct RawSample {
    pub pm1_0: u16,
    pub pm2_5: u16,
    pub pm10: u16,
}

/// A channel of a particulate sample.
#[derive(Clone, Copy, Debug, PartialEq, Eq, Structural)]
pub enum Channel {
    Pm1_0,
    Pm2_5,
    Pm10,
}

/// A wall-clock instant: seconds and nanoseconds since the Unix epoch,
/// with the local offset east of UTC at that instant.
#[derive(Clone, Copy, Debug, PartialEq, Eq, Structural)]
pub struct Timestamp {
    pub unix_secs: i64,
    pub subsec_nanos: u32,
    pub utc_offset_secs: i32,
}

impl Timestamp {
    /// A local offset lies strictly within one day of UTC.
    pub open spec fn wf(&self) -> bool {
        -86_400 < self.utc_offset_secs < 86_400
    }
}

/// The reading of one acquisition cycle: the mean of each channel and the
/// time at which the samples were reduced.
#[derive(Clone, Copy, Debug, PartialEq, Eq, Structural)]
pub struct AirQualityStatus {
    pub pm_1_0: u32,
    pub pm_2_5: u32,
    pub pm_10: u32,
    pub timestamp: Timestamp,
}

/// The value of channel `c` in sample `r`.
pub open spec fn reading(r: RawSample, c: Channel) -> int {
    match c {
        Channel::Pm1_0 => r.pm1_0 as int,
        Channel::Pm2_5 => r.pm2_5 as int,
        Channel::Pm10 => r.pm10 as int,
    }
}

/// Sum of one channel over a sequence of samples.
pub open spec fn channel_sum(s: Seq<RawSample>, c: Channel) -> int
    decreases s.len(),
{
    if s.len() == 0 {
        0
    } else {
        channel_sum(s.drop_last(), c) + reading(s.last(), c)
    }
}

/// Integer mean of one channel, truncated toward zero.
pub open spec fn channel_mean(s: Seq<RawSample>, c: Channel) -> int {
    channel_sum(s, c) / (s.len() as int)
}

/// `st` holds the per-channel means of `s` and a well-formed timestamp.
pub open spec fn reduces_to(s: Seq<RawSample>, st: AirQualityStatus) -> bool {
    &&& st.pm_1_0 as int == channel_mean(s, Channel::Pm1_0)
    &&& st.pm_2_5 as int == channel_mean(s, Channel::Pm2_5)
    &&& st.pm_10 as int == channel_mean(s, Channel::Pm10)
    &&& st.timestamp.wf()
}

proof fn lemma_channel_sum_bounds(s: Seq<RawSample>, c: Channel)
    ensures
        0 <= channel_sum(s, c) <= s.len() * 65535,
    decreases s.len(),
{
    if s.len() > 0 {
        lemma_channel_sum_bounds(s.drop_last(), c);
    }
}

fn read_channel(r: &RawSample, c: Channel) -> (v: u16)
    ensures
        v as int == reading(*r, c),
{
    match c {
        Channel::Pm1_0 => r.pm1_0,
        Channel::Pm2_5 => r.pm2_5,
        Channel::Pm10 => r.pm10,
    }
}

/// Sum of one channel over all samples, wide enough never to overflow.
pub fn sum_channel(samples: &Vec<RawSample>, c: Channel) -> (r: u128)
    ensures
        r as int == channel_sum(samples@, c),
{
    let mut sum: u128 = 0;
    let mut i: usize = 0;
    while i < samples.len()
        invariant
            i <= samples.len(),
            sum as int == channel_sum(samples@.subrange(0, i as int), c),
            sum as int <= i * 65535,
        decreases samples.len() - i,
    {
        let v = read_channel(&samples[i], c);
        assert(samples@.subrange(0, i + 1).drop_last() == samples@.subrange(0, i as int));
        sum = sum + v as u128;
        i = i + 1;
    }
    assert(samples@.subrange(0, i as int) == samples@);
    sum
}

/// Integer mean of one channel over a non-empty set of samples.
pub fn mean_channel(samples: &Vec<RawSample>, c: Channel) -> (r: u32)
    requires
        samples.len() > 0,
    ensures
        r as int == channel_mean(samples@, c),
{
    let sum = sum_channel(samples, c);
    let n = samples.len() as u128;
    proof {
        lemma_channel_sum_bounds(samples@, c);
        let (s, k) = (sum as int, n as int);
        assert(s / k <= 65535) by (nonlinear_arith)
            requires
                0 <= s <= k * 65535,
                k > 0,
        ;
    }
    (sum / n) as u32
}

/// Reduces the collected samples to one status stamped with `timestamp`.
pub fn aggregate(samples: &Vec<RawSample>, timestamp: Timestamp) -> (r: AirQualityStatus)
    requires
        samples.len() > 0,
    ensures
        r.pm_1_0 as int == channel_mean(samples@, Channel::Pm1_0),
        r.pm_2_5 as int == channel_mean(samples@, Channel::Pm2_5),
        r.pm_10 as int == channel_mean(samples@, Channel::Pm10),
        r.timestamp == timestamp,
{
    AirQualityStatus {
        pm_1_0: mean_channel(samples, Channel::Pm1_0),
        pm_2_5: mean_channel(samples, Channel::Pm2_5),
        pm_10: mean_channel(samples, Channel::Pm10),
        timestamp,
    }
}

/// Relies on chrono::Local::now for the current instant, read back through
/// `timestamp`, `timestamp_subsec_nanos` and the offset's `local_minus_utc`;
/// chrono's `FixedOffset` keeps that offset strictly within one day.
#[verifier::external_body]
fn local_now() -> (r: Timestamp)
    ensures
        r.wf(),
{
    let now = chrono::Local::now();
    Timestamp {
        unix_secs: now.timestamp(),
        subsec_nanos: now.timestamp_subsec_nanos(),
        utc_offset_secs: now.offset().local_minus_utc(),
    }
}

/// Reduces the collected samples to one status stamped with the current
/// local time.
pub fn status_from_measurements(samples: &Vec<RawSample>) -> (r: AirQualityStatus)
    requires
        samples.len() > 0,
    ensures
        reduces_to(samples@, r),
{
    let now = local_now();
    aggregate(samples, now)
}

} // verus!
