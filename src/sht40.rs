use vstd::prelude::*;
use crate::error::PollError;
use crate::gauge::Gauge;
use crate::sensor::{poll_result, Sensor};

verus! {

/// The temperature in thousandths of a °C that sht4x computes from a raw
/// temperature word.
pub uninterp spec fn sht4x_milli_celsius(raw_temperature: u16) -> i32;

/// The relative humidity in thousandths of a percent that sht4x computes from
/// a raw humidity word.
pub uninterp spec fn sht4x_milli_percent(raw_humidity: u16) -> i32;

/// Relies on sht4x's `Measurement::from(SensorData)` followed by
/// `temperature_milli_celsius`: the temperature depends on the raw temperature
/// word alone.
#[verifier::external_body]
fn milli_celsius(raw: SensorWords) -> (r: i32)
    ensures
        r == sht4x_milli_celsius(raw.temperature),
{
    let data = sht4x::SensorData { temperature: raw.temperature, humidity: raw.humidity };
    sht4x::Measurement::from(data).temperature_milli_celsius()
}

/// Relies on sht4x's `Measurement::from(SensorData)` followed by
/// `humidity_milli_percent`: the humidity depends on the raw humidity word alone.
#[verifier::external_body]
fn milli_percent(raw: SensorWords) -> (r: i32)
    ensures
        r == sht4x_milli_percent(raw.humidity),
{
    let data = sht4x::SensorData { temperature: raw.temperature, humidity: raw.humidity };
    sht4x::Measurement::from(data).humidity_milli_percent()
}

/// The two raw words of one measurement, as the sensor sent them.
#[derive(Clone, Copy, Debug, PartialEq, Eq, Structural)]
pub struct SensorWords {
    pub temperature: u16,
    pub humidity: u16,
}

/// One converted reading, in thousandths of a °C and of a percent.
#[derive(Clone, Copy, Debug, PartialEq, Eq, Structural)]
pub struct Sht40Reading {
    pub temp_milli: i32,
    pub rh_milli: i32,
}

/// The temperature/humidity sensor adapter, polled every ten seconds.
#[derive(Clone, Copy, Debug, PartialEq, Eq, Structural)]
pub struct Sht40 {
    /// `temp_degc`
    pub gauge_temp: Gauge,
    /// `rh_percent`
    pub gauge_rh: Gauge,
}

/// The converted reading of a pair of raw words.
pub open spec fn converted(raw: SensorWords) -> Sht40Reading {
    Sht40Reading {
        temp_milli: sht4x_milli_celsius(raw.temperature),
        rh_milli: sht4x_milli_percent(raw.humidity),
    }
}

impl Sht40 {
    /// The adapter after applying one converted poll outcome.
    pub open spec fn applied(self, outcome: Result<Sht40Reading, PollError>) -> Sht40 {
        match outcome {
            Ok(m) => Sht40 {
                gauge_temp: self.gauge_temp.written(m.temp_milli as i64),
                gauge_rh: self.gauge_rh.written(m.rh_milli as i64),
            },
            Err(_) => self,
        }
    }

    /// The adapter after a poll whose vendor measurement returned `sample`.
    pub open spec fn polled(self, sample: Result<SensorWords, PollError>) -> Sht40 {
        match sample {
            Ok(raw) => self.applied(Ok(converted(raw))),
            Err(e) => self.applied(Err(e)),
        }
    }

    /// The adapter after a run of failed polls.
    pub open spec fn after_failures(self, errors: Seq<PollError>) -> Sht40
        decreases errors.len(),
    {
        if errors.len() == 0 {
            self
        } else {
            self.applied(Err(errors.last())).after_failures(errors.drop_last())
        }
    }

    /// Boots the adapter: the vendor driver needs no handshake, so this only
    /// registers its two gauges.
    pub fn boot() -> (s: Sht40)
        ensures
            s == (Sht40 { gauge_temp: Gauge::fresh(), gauge_rh: Gauge::fresh() }),
    {
        Sht40 { gauge_temp: Gauge::new(), gauge_rh: Gauge::new() }
    }

    /// Publishes one converted poll outcome: a reading updates both gauges, an
    /// error leaves them as they were and is handed back.
    pub fn apply(&mut self, outcome: Result<Sht40Reading, PollError>) -> (r: Result<(), PollError>)
        ensures
            *final(self) == old(self).applied(outcome),
            r == poll_result(outcome),
    {
        match outcome {
            Ok(m) => {
                self.gauge_temp.set(m.temp_milli as i64);
                self.gauge_rh.set(m.rh_milli as i64);
                Ok(())
            },
            Err(e) => Err(e),
        }
    }

    /// One poll, given the raw words that the vendor measurement returned.
    pub fn poll(&mut self, sample: Result<SensorWords, PollError>) -> (r: Result<(), PollError>)
        ensures
            *final(self) == old(self).polled(sample),
            r == poll_result(sample),
    {
        match sample {
            Ok(raw) => {
                let m = Sht40Reading { temp_milli: milli_celsius(raw), rh_milli: milli_percent(raw) };
                self.apply(Ok(m))
            },
            Err(e) => self.apply(Err(e)),
        }
    }
}

impl Sensor for Sht40 {
    open spec fn spec_name() -> Seq<char> {
        "SHT40"@
    }

    open spec fn spec_period_ms() -> u64 {
        10000
    }

    fn name(&self) -> (r: &'static str) {
        "SHT40"
    }

    fn poll_period(&self) -> (r: u64) {
        10000
    }
}

/// Failed polls leave the adapter unchanged.
proof fn lemma_failures_change_nothing(s: Sht40, errors: Seq<PollError>)
    ensures
        s.after_failures(errors) == s,
    decreases errors.len(),
{
    if errors.len() > 0 {
        lemma_failures_change_nothing(s, errors.drop_last());
    }
}

/// Self-healing: after any run of failed polls, a successful one publishes its
/// reading exactly as it would have on a sensor that never failed.
pub proof fn lemma_self_heals(s: Sht40, errors: Seq<PollError>, m: Sht40Reading)
    ensures
        s.after_failures(errors).applied(Ok(m)) == s.applied(Ok(m)),
        s.after_failures(errors).applied(Ok(m)).gauge_temp.value == m.temp_milli as i64,
        s.after_failures(errors).applied(Ok(m)).gauge_rh.value == m.rh_milli as i64,
{
    lemma_failures_change_nothing(s, errors);
}

} // verus!
