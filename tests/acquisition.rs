use monitoring_app::acquisition::{Action, Cycle, Event, Phase, PipelineConfig, WarmUp};
use monitoring_app::sample::RawSample;

fn pm(v: u16) -> RawSample {
    RawSample { pm1_0: v, pm2_5: v + 1, pm10: v + 2 }
}

fn ok_read(v: u16, now_ms: u64) -> Event {
    Event::ReadDone { sample: Some(pm(v)), now_ms }
}

fn failed_read(now_ms: u64) -> Event {
    Event::ReadDone { sample: None, now_ms }
}

fn no_warm_up(measurements: usize) -> Cycle {
    Cycle::new(PipelineConfig { measurements, warm_up: WarmUp::Reads { count: 0 } })
}

#[test]
fn failed_reads_are_absorbed_until_target() {
    let mut c = no_warm_up(3);
    assert_eq!(c.pending(), Action::Wake);
    assert_eq!(c.step(Event::Woken { ok: true }), Action::Read);
    assert_eq!(c.step(ok_read(0, 0)), Action::Read);
    assert_eq!(c.phase(), Phase::Collecting);
    assert_eq!(c.step(failed_read(1)), Action::Read);
    assert_eq!(c.step(ok_read(1, 2)), Action::Read);
    assert_eq!(c.step(failed_read(3)), Action::Read);
    assert_eq!(c.step(ok_read(2, 4)), Action::Read);
    assert_eq!(c.status(), None);
    assert_eq!(c.step(ok_read(6, 5)), Action::Sleep);
    assert_eq!(c.failures(), 2);
    assert_eq!(c.collected(), 3);
    let st = c.status().unwrap();
    assert_eq!((st.pm_1_0, st.pm_2_5, st.pm_10), (3, 4, 5));
    assert_eq!(c.step(Event::Slept { ok: true }), Action::Finish);
    assert_eq!(c.phase(), Phase::Done);
}

#[test]
fn failed_wake_then_good_read_confirms() {
    let mut c = no_warm_up(1);
    assert_eq!(c.step(Event::Woken { ok: false }), Action::Read);
    assert_eq!(c.phase(), Phase::Confirming);
    c.step(ok_read(5, 0));
    assert_eq!(c.phase(), Phase::Collecting);
}

#[test]
fn good_wake_then_failed_read_wakes_again() {
    let mut c = no_warm_up(1);
    c.step(Event::Woken { ok: true });
    assert_eq!(c.step(failed_read(0)), Action::Wake);
    assert_eq!(c.phase(), Phase::Waking);
    assert_eq!(c.step(Event::Woken { ok: true }), Action::Read);
    assert_eq!(c.step(failed_read(1)), Action::Wake);
    assert_eq!(c.failures(), 0);
}

#[test]
fn warm_up_by_count_discards_reads() {
    let mut c = Cycle::new(PipelineConfig { measurements: 1, warm_up: WarmUp::Reads { count: 2 } });
    c.step(Event::Woken { ok: true });
    c.step(ok_read(0, 0));
    assert_eq!(c.phase(), Phase::WarmingUp { started_ms: 0, reads: 0 });
    c.step(ok_read(100, 1));
    assert_eq!(c.phase(), Phase::WarmingUp { started_ms: 0, reads: 1 });
    c.step(failed_read(2));
    assert_eq!(c.phase(), Phase::Collecting);
    assert_eq!(c.collected(), 0);
    assert_eq!(c.step(ok_read(4, 3)), Action::Sleep);
    assert_eq!(c.status().unwrap().pm_1_0, 4);
}

#[test]
fn warm_up_by_duration_waits_past_the_limit() {
    let mut c = Cycle::new(PipelineConfig {
        measurements: 1,
        warm_up: WarmUp::Duration { millis: 30_000 },
    });
    c.step(Event::Woken { ok: true });
    c.step(ok_read(0, 1_000));
    c.step(ok_read(0, 20_000));
    c.step(failed_read(31_000));
    assert!(matches!(c.phase(), Phase::WarmingUp { started_ms: 1_000, .. }));
    c.step(ok_read(0, 31_001));
    assert_eq!(c.phase(), Phase::Collecting);
}

#[test]
fn unexpected_event_changes_nothing() {
    let mut c = no_warm_up(1);
    assert_eq!(c.step(ok_read(1, 0)), Action::Wake);
    assert_eq!(c.phase(), Phase::Waking);
    assert_eq!(c.step(Event::Slept { ok: true }), Action::Wake);
}

#[test]
fn failed_sleep_keeps_the_result() {
    let mut c = no_warm_up(1);
    c.step(Event::Woken { ok: true });
    c.step(ok_read(0, 0));
    c.step(ok_read(9, 1));
    assert_eq!(c.step(Event::Slept { ok: false }), Action::Finish);
    assert_eq!(c.status().unwrap().pm_10, 11);
    assert_eq!(c.step(ok_read(1, 2)), Action::Finish);
}
