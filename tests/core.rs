use mlss::bus::{Bus, Span};
use mlss::error::{BootError, DecodeError, PollError, TransportError};
use mlss::gauge::{to_milli, Gauge};
use mlss::pmsa003i::{Concentrations, ParticleCounts, PmReading, Pmsa003i};
use mlss::runtime::Runtime;
use mlss::scd30::{Scd30, Scd30Reading};
use mlss::schedule::{schedule_compliant, Action, Event, Manager, Phase};
use mlss::sensor::Sensor;
use mlss::sht40::{SensorWords, Sht40, Sht40Reading};

fn booted(period_ms: u64, now: u64) -> Manager {
    let mut m = Manager::new(period_ms);
    assert_eq!(m.step(Event::Tick(now)), Action::Boot);
    assert_eq!(m.step(Event::Booted { ok: true, now }), Action::SleepUntil(now));
    m
}

#[test]
fn two_proxies_write_whole_transactions() {
    let mut bus = Bus::new();
    let a = bus.acquire().unwrap();
    let b = bus.acquire().unwrap();
    assert_ne!(a, b);
    for _ in 0..1000 {
        bus.transact(a, &vec![0xAA]);
        bus.transact(b, &vec![0xBB]);
    }
    assert_eq!(bus.wire.len(), 2000);
    assert_eq!(bus.spans.len(), 2000);
    for (k, span) in bus.spans.iter().enumerate() {
        assert_eq!(span.end - span.start, 1);
        let expected = if span.proxy == a.id { 0xAA } else { 0xBB };
        assert_eq!(bus.wire[span.start], expected);
        assert_eq!(span.proxy, if k % 2 == 0 { a.id } else { b.id });
    }
}

#[test]
fn multi_byte_transaction_stays_contiguous() {
    let mut bus = Bus::new();
    let a = bus.acquire().unwrap();
    let b = bus.acquire().unwrap();
    bus.transact(a, &vec![1, 2, 3]);
    bus.transact(b, &vec![9, 8]);
    bus.transact(a, &vec![]);
    assert_eq!(bus.wire, vec![1, 2, 3, 9, 8]);
    assert_eq!(bus.spans[0], Span { proxy: a.id, start: 0, end: 3 });
    assert_eq!(bus.spans[1], Span { proxy: b.id, start: 3, end: 5 });
    assert_eq!(bus.spans[2], Span { proxy: a.id, start: 5, end: 5 });
}

#[test]
fn boot_failure_is_isolated() {
    // Sensors X, Y and Z; X's handshake fails.
    let mut rt = Runtime::new(&vec![2000, 5000, 10000]);
    for i in 0..3 {
        assert_eq!(rt.step(i, Event::Tick(0)), Action::Boot);
    }
    let x = Scd30::boot(Err(BootError::HandshakeFailed));
    assert_eq!(x, Err(BootError::HandshakeFailed));
    assert_eq!(rt.step(0, Event::Booted { ok: x.is_ok(), now: 1 }), Action::Stop);
    assert_eq!(rt.step(1, Event::Booted { ok: true, now: 1 }), Action::SleepUntil(1));
    assert_eq!(rt.step(2, Event::Booted { ok: true, now: 1 }), Action::SleepUntil(1));
    assert_eq!(rt.managers[0].phase, Phase::Failed);
    assert_eq!(rt.managers[1].phase, Phase::Waiting);
    assert_eq!(rt.managers[2].phase, Phase::Waiting);
    assert_eq!(rt.failed(), vec![0]);
    assert_eq!(rt.step(1, Event::Tick(1)), Action::Poll);
    assert_eq!(rt.step(2, Event::Tick(1)), Action::Poll);
    assert_eq!(rt.step(0, Event::Tick(1)), Action::Stop);
}

#[test]
fn five_nacks_then_success_publishes_reading() {
    let mut s = Sht40::boot();
    let mut m = booted(s.poll_period(), 0);
    let mut now: u64 = 0;
    for _ in 0..5 {
        assert_eq!(m.step(Event::Tick(now)), Action::Poll);
        let r = s.apply(Err(PollError::Transport(TransportError::Nack)));
        assert_eq!(r, Err(PollError::Transport(TransportError::Nack)));
        assert_eq!(m.step(Event::Polled { ok: r.is_ok(), end: now }), Action::SleepUntil(now + 10000));
        now += 10000;
    }
    assert_eq!(m.failures, 5);
    assert_eq!(s.gauge_temp.writes, 0);
    assert_eq!(m.step(Event::Tick(now)), Action::Poll);
    let r = s.apply(Ok(Sht40Reading { temp_milli: 21300, rh_milli: 44000 }));
    assert_eq!(r, Ok(()));
    m.step(Event::Polled { ok: true, end: now });
    assert_eq!(m.failures, 0);
    assert_eq!(m.phase, Phase::Waiting);
    assert_eq!(s.gauge_temp.value, 21300);
    assert_eq!(s.gauge_rh.value, 44000);
    assert_eq!(s.gauge_temp.writes, 1);
    assert_eq!(s.gauge_rh.writes, 1);
}

#[test]
fn cadence_of_recorded_polls() {
    assert!(schedule_compliant(&vec![0, 5010, 10020], 5000));
    assert!(!schedule_compliant(&vec![0, 5010, 10020, 14900], 5000));
    assert!(schedule_compliant(&vec![], 5000));
    assert!(schedule_compliant(&vec![7], 5000));
    assert!(schedule_compliant(&vec![0, 5000], 5000));
    assert!(!schedule_compliant(&vec![u64::MAX - 1, u64::MAX], 5));
}

#[test]
fn scheduler_waits_a_full_period_after_each_poll() {
    let mut m = booted(5000, 0);
    assert_eq!(m.step(Event::Tick(0)), Action::Poll);
    assert_eq!(m.step(Event::Tick(1)), Action::Idle);
    assert_eq!(m.step(Event::Polled { ok: false, end: 10 }), Action::SleepUntil(5010));
    assert_eq!(m.step(Event::Tick(5009)), Action::SleepUntil(5010));
    assert_eq!(m.step(Event::Tick(5010)), Action::Poll);
    assert_eq!(m.step(Event::Polled { ok: true, end: 5020 }), Action::SleepUntil(10020));
    assert_eq!(m.step(Event::Tick(10020)), Action::Poll);
    assert_eq!(m.step(Event::Polled { ok: true, end: u64::MAX - 1 }), Action::SleepUntil(u64::MAX));
    assert_eq!(m.step(Event::Shutdown), Action::Stop);
    assert_eq!(m.phase, Phase::Stopped);
    assert_eq!(m.step(Event::Tick(0)), Action::Stop);
}

#[test]
fn scd30_not_ready_changes_no_gauge() {
    let mut s = Scd30::boot(Ok(())).unwrap();
    let reading = Scd30Reading { co2_milli: 415_000, temp_milli: 22_500, rh_milli: 40_100 };
    assert_eq!(s.poll(Ok(Some(reading))), Ok(()));
    let before = s;
    assert_eq!(s.poll(Ok(None)), Ok(()));
    assert_eq!(s, before);
    assert_eq!(s.gauge_co2.value, 415_000);
    assert_eq!(s.gauge_temp.value, 22_500);
    assert_eq!(s.gauge_rh.value, 40_100);
    assert_eq!(s.gauge_co2.writes, 1);
}

#[test]
fn scd30_errors() {
    let mut s = Scd30::boot(Ok(())).unwrap();
    let e = PollError::Decode(DecodeError::Checksum);
    assert_eq!(s.poll(Err(e)), Err(e));
    assert_eq!(s.gauge_co2, Gauge::new());
    assert_eq!(Scd30::boot(Err(BootError::Transport(TransportError::Io))), Err(BootError::Transport(TransportError::Io)));
}

#[test]
fn pmsa003i_publishes_every_field() {
    let mut s = Pmsa003i::boot();
    let m = PmReading {
        concentrations: Concentrations {
            pm1_0: 1, pm1_0_standard: 2, pm2_5: 3, pm2_5_standard: 4, pm10_0: 5, pm10_0_standard: 6,
        },
        counts: ParticleCounts {
            particles_0_3um: 300, particles_0_5um: 200, particles_1_0um: 100,
            particles_2_5um: 25, particles_5_0um: 5, particles_10_0um: 65535,
        },
    };
    assert_eq!(s.poll(Ok(m)), Ok(()));
    let g = s.pm_gauges;
    assert_eq!([g.pm1_0.value, g.pm1_0_standard.value, g.pm2_5.value, g.pm2_5_standard.value, g.pm10_0.value, g.pm10_0_standard.value],
        [1000, 2000, 3000, 4000, 5000, 6000]);
    let c = s.count_gauges;
    assert_eq!([c.particles_0_3um.value, c.particles_0_5um.value, c.particles_1_0um.value, c.particles_2_5um.value, c.particles_5_0um.value, c.particles_10_0um.value],
        [300_000, 200_000, 100_000, 25_000, 5_000, 65_535_000]);
    assert_eq!([g.pm1_0.writes, g.pm10_0_standard.writes, c.particles_0_3um.writes, c.particles_10_0um.writes], [1, 1, 1, 1]);
    let before = s;
    let e = PollError::Decode(DecodeError::Framing);
    assert_eq!(s.poll(Err(e)), Err(e));
    assert_eq!(s, before);
}

#[test]
fn sht40_converts_raw_words() {
    let mut s = Sht40::boot();
    assert_eq!(s.poll(Ok(SensorWords { temperature: 0, humidity: 0 })), Ok(()));
    assert_eq!(s.gauge_temp.value, -45_000);
    assert_eq!(s.gauge_rh.value, -6_000);
    assert_eq!(s.poll(Ok(SensorWords { temperature: 65535, humidity: 65535 })), Ok(()));
    assert_eq!(s.gauge_temp.value, 130_000);
    assert_eq!(s.gauge_rh.value, 119_000);
    assert_eq!(s.gauge_temp.writes, 2);
}

#[test]
fn adapter_identities_and_periods() {
    let p = Pmsa003i::boot();
    let c = Scd30::boot(Ok(())).unwrap();
    let h = Sht40::boot();
    assert_eq!((p.name(), p.poll_period()), ("PMSA003I", 2000));
    assert_eq!((c.name(), c.poll_period()), ("SCD30", 5000));
    assert_eq!((h.name(), h.poll_period()), ("SHT40", 10000));
}

#[test]
fn gauge_set_counts_writes() {
    let mut g = Gauge::new();
    g.set(-7);
    g.set(12);
    assert_eq!(g, Gauge { value: 12, writes: 2 });
    let mut full = Gauge { value: 0, writes: u64::MAX };
    full.set(1);
    assert_eq!(full.writes, u64::MAX);
    assert_eq!(to_milli(65535), 65_535_000);
}

#[test]
fn runtime_new_and_boot_order() {
    let mut rt = Runtime::new(&vec![]);
    assert!(rt.managers.is_empty());
    rt = Runtime::new(&vec![1000]);
    assert_eq!(rt.managers[0], Manager { phase: Phase::Booting, period_ms: 1000, next_wake_ms: 0, failures: 0 });
    assert_eq!(rt.step(0, Event::Polled { ok: true, end: 3 }), Action::Boot);
    assert_eq!(rt.managers[0].phase, Phase::Booting);
}
