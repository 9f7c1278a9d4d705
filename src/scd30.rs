use vstd::prelude::*;
use crate::error::{BootError, PollError};
use crate::gauge::Gauge;
use crate::sensor::{poll_result, Sensor};

verus! {

/// One reading of the CO2/temperature/humidity sensor, in thousandths of
/// ppm, °C and % respectively.
#[derive(Clone, Copy, Debug, PartialEq, Eq, Structural)]
pub struct Scd30Reading {
    pub co2_milli: i64,
    pub temp_milli: i64,
    pub rh_milli: i64,
}

/// The CO2/temperature/humidity sensor adapter, polled every five seconds.
#[derive(Clone, Copy, Debug, PartialEq, Eq, Structural)]
pub struct Scd30 {
    /// `co2_ppm`
    pub gauge_co2: Gauge,
    /// `temp_degc`
    pub gauge_temp: Gauge,
    /// `rh_percent`
    pub gauge_rh: Gauge,
}

impl Scd30 {
    /// The adapter right after boot, with its three gauges freshly registered.
    pub open spec fn fresh() -> Scd30 {
        Scd30 { gauge_co2: Gauge::fresh(), gauge_temp: Gauge::fresh(), gauge_rh: Gauge::fresh() }
    }

    /// The adapter after a poll. `Ok(None)` is the sensor reporting that no
    /// new measurement is ready yet.
    pub open spec fn polled(self, sample: Result<Option<Scd30Reading>, PollError>) -> Scd30 {
        match sample {
            Ok(Some(m)) => Scd30 {
                gauge_co2: self.gauge_co2.written(m.co2_milli),
                gauge_temp: self.gauge_temp.written(m.temp_milli),
                gauge_rh: self.gauge_rh.written(m.rh_milli),
            },
            _ => self,
        }
    }

    /// Boots the adapter, given the outcome of the vendor handshake and of
    /// starting continuous measurement.
    pub fn boot(init: Result<(), BootError>) -> (r: Result<Scd30, BootError>)
        ensures
            match init {
                Ok(()) => r == Ok::<Scd30, BootError>(Scd30::fresh()),
                Err(e) => r == Err::<Scd30, BootError>(e),
            },
    {
        match init {
            Ok(()) => Ok(Scd30 { gauge_co2: Gauge::new(), gauge_temp: Gauge::new(), gauge_rh: Gauge::new() }),
            Err(e) => Err(e),
        }
    }

    /// One poll, given the data-ready check and, when ready, the read.
    /// A sensor with nothing new is a success that changes no gauge.
    pub fn poll(&mut self, sample: Result<Option<Scd30Reading>, PollError>) -> (r: Result<(), PollError>)
        ensures
            *final(self) == old(self).polled(sample),
            r == poll_result(sample),
    {
        match sample {
            Ok(Some(m)) => {
                self.gauge_co2.set(m.co2_milli);
                self.gauge_temp.set(m.temp_milli);
                self.gauge_rh.set(m.rh_milli);
                Ok(())
            },
            Ok(None) => Ok(()),
            Err(e) => Err(e),
        }
    }
}

impl Sensor for Scd30 {
    open spec fn spec_name() -> Seq<char> {
        "SCD30"@
    }

    open spec fn spec_period_ms() -> u64 {
        5000
    }

    fn name(&self) -> (r: &'static str) {
        "SCD30"
    }

    fn poll_period(&self) -> (r: u64) {
        5000
    }
}

/// A poll that finds no new data ready succeeds and leaves every gauge as it was.
pub proof fn lemma_not_ready_is_noop(s: Scd30)
    ensures
        s.polled(Ok(None)) == s,
        poll_result::<Option<Scd30Reading>>(Ok(None)) == Ok::<(), PollError>(()),
{
}

} // verus!
