use vstd::prelude::*;
use crate::error::PollError;
use crate::gauge::{bumped, milli, to_milli, Gauge};
use crate::sensor::{poll_result, Sensor};

verus! {

/// Mass concentrations in µg/m³, under standard and environmental conditions.
#[derive(Clone, Copy, Debug, PartialEq, Eq, Structural)]
pub struct Concentrations {
    pub pm1_0: u16,
    pub pm1_0_standard: u16,
    pub pm2_5: u16,
    pub pm2_5_standard: u16,
    pub pm10_0: u16,
    pub pm10_0_standard: u16,
}

/// Particle counts per 0.1 L of air, by smallest diameter.
#[derive(Clone, Copy, Debug, PartialEq, Eq, Structural)]
pub struct ParticleCounts {
    pub particles_0_3um: u16,
    pub particles_0_5um: u16,
    pub particles_1_0um: u16,
    pub particles_2_5um: u16,
    pub particles_5_0um: u16,
    pub particles_10_0um: u16,
}

/// One decoded reading of the particulate-matter sensor.
#[derive(Clone, Copy, Debug, PartialEq, Eq, Structural)]
pub struct PmReading {
    pub concentrations: Concentrations,
    pub counts: ParticleCounts,
}

/// Gauges `pm_conc{pm, cond}` for the six concentrations.
#[derive(Clone, Copy, Debug, PartialEq, Eq, Structural)]
pub struct ConcentrationGauges {
    pub pm1_0: Gauge,
    pub pm1_0_standard: Gauge,
    pub pm2_5: Gauge,
    pub pm2_5_standard: Gauge,
    pub pm10_0: Gauge,
    pub pm10_0_standard: Gauge,
}

impl ConcentrationGauges {
    /// All six gauges freshly registered.
    pub open spec fn fresh() -> ConcentrationGauges {
        ConcentrationGauges {
            pm1_0: Gauge::fresh(),
            pm1_0_standard: Gauge::fresh(),
            pm2_5: Gauge::fresh(),
            pm2_5_standard: Gauge::fresh(),
            pm10_0: Gauge::fresh(),
            pm10_0_standard: Gauge::fresh(),
        }
    }

    /// Each gauge written exactly once, with its own field of `m`.
    pub open spec fn updated(self, m: Concentrations) -> ConcentrationGauges {
        ConcentrationGauges {
            pm1_0: self.pm1_0.written(milli(m.pm1_0)),
            pm1_0_standard: self.pm1_0_standard.written(milli(m.pm1_0_standard)),
            pm2_5: self.pm2_5.written(milli(m.pm2_5)),
            pm2_5_standard: self.pm2_5_standard.written(milli(m.pm2_5_standard)),
            pm10_0: self.pm10_0.written(milli(m.pm10_0)),
            pm10_0_standard: self.pm10_0_standard.written(milli(m.pm10_0_standard)),
        }
    }

    pub fn new() -> (g: ConcentrationGauges)
        ensures
            g == ConcentrationGauges::fresh(),
    {
        ConcentrationGauges {
            pm1_0: Gauge::new(),
            pm1_0_standard: Gauge::new(),
            pm2_5: Gauge::new(),
            pm2_5_standard: Gauge::new(),
            pm10_0: Gauge::new(),
            pm10_0_standard: Gauge::new(),
        }
    }

    pub fn update(&mut self, meas: Concentrations)
        ensures
            *final(self) == old(self).updated(meas),
    {
        self.pm1_0.set(to_milli(meas.pm1_0));
        self.pm1_0_standard.set(to_milli(meas.pm1_0_standard));
        self.pm2_5.set(to_milli(meas.pm2_5));
        self.pm2_5_standard.set(to_milli(meas.pm2_5_standard));
        self.pm10_0.set(to_milli(meas.pm10_0));
        self.pm10_0_standard.set(to_milli(meas.pm10_0_standard));
    }
}

/// Gauges `particle_count{diam}` for the six diameter buckets.
#[derive(Clone, Copy, Debug, PartialEq, Eq, Structural)]
pub struct ParticleCountGauges {
    pub particles_0_3um: Gauge,
    pub particles_0_5um: Gauge,
    pub particles_1_0um: Gauge,
    pub particles_2_5um: Gauge,
    pub particles_5_0um: Gauge,
    pub particles_10_0um: Gauge,
}

impl ParticleCountGauges {
    /// All six gauges freshly registered.
    pub open spec fn fresh() -> ParticleCountGauges {
        ParticleCountGauges {
            particles_0_3um: Gauge::fresh(),
            particles_0_5um: Gauge::fresh(),
            particles_1_0um: Gauge::fresh(),
            particles_2_5um: Gauge::fresh(),
            particles_5_0um: Gauge::fresh(),
            particles_10_0um: Gauge::fresh(),
        }
    }

    /// Each gauge written exactly once, with its own field of `m`.
    pub open spec fn updated(self, m: ParticleCounts) -> ParticleCountGauges {
        ParticleCountGauges {
            particles_0_3um: self.particles_0_3um.written(milli(m.particles_0_3um)),
            particles_0_5um: self.particles_0_5um.written(milli(m.particles_0_5um)),
            particles_1_0um: self.particles_1_0um.written(milli(m.particles_1_0um)),
            particles_2_5um: self.particles_2_5um.written(milli(m.particles_2_5um)),
            particles_5_0um: self.particles_5_0um.written(milli(m.particles_5_0um)),
            particles_10_0um: self.particles_10_0um.written(milli(m.particles_10_0um)),
        }
    }

    pub fn new() -> (g: ParticleCountGauges)
        ensures
            g == ParticleCountGauges::fresh(),
    {
        ParticleCountGauges {
            particles_0_3um: Gauge::new(),
            particles_0_5um: Gauge::new(),
            particles_1_0um: Gauge::new(),
            particles_2_5um: Gauge::new(),
            particles_5_0um: Gauge::new(),
            particles_10_0um: Gauge::new(),
        }
    }

    pub fn update(&mut self, meas: ParticleCounts)
        ensures
            *final(self) == old(self).updated(meas),
    {
        self.particles_0_3um.set(to_milli(meas.particles_0_3um));
        self.particles_0_5um.set(to_milli(meas.particles_0_5um));
        self.particles_1_0um.set(to_milli(meas.particles_1_0um));
        self.particles_2_5um.set(to_milli(meas.particles_2_5um));
        self.particles_5_0um.set(to_milli(meas.particles_5_0um));
        self.particles_10_0um.set(to_milli(meas.particles_10_0um));
    }
}

/// The particulate-matter sensor adapter, polled every two seconds.
#[derive(Clone, Copy, Debug, PartialEq, Eq, Structural)]
pub struct Pmsa003i {
    pub pm_gauges: ConcentrationGauges,
    pub count_gauges: ParticleCountGauges,
}

impl Pmsa003i {
    /// The adapter after a poll whose vendor read returned `sample`.
    pub open spec fn polled(self, sample: Result<PmReading, PollError>) -> Pmsa003i {
        match sample {
            Ok(m) => Pmsa003i {
                pm_gauges: self.pm_gauges.updated(m.concentrations),
                count_gauges: self.count_gauges.updated(m.counts),
            },
            Err(_) => self,
        }
    }

    /// Boots the adapter: the vendor driver needs no handshake, so this only
    /// registers the twelve gauges.
    pub fn boot() -> (s: Pmsa003i)
        ensures
            s.pm_gauges == ConcentrationGauges::fresh(),
            s.count_gauges == ParticleCountGauges::fresh(),
    {
        Pmsa003i { pm_gauges: ConcentrationGauges::new(), count_gauges: ParticleCountGauges::new() }
    }

    /// One poll, given what the vendor read returned: on a reading every field
    /// is published to its own gauge; on an error no gauge changes.
    pub fn poll(&mut self, sample: Result<PmReading, PollError>) -> (r: Result<(), PollError>)
        ensures
            *final(self) == old(self).polled(sample),
            r == poll_result(sample),
    {
        match sample {
            Ok(m) => {
                self.pm_gauges.update(m.concentrations);
                self.count_gauges.update(m.counts);
                Ok(())
            },
            Err(e) => Err(e),
        }
    }
}

impl Sensor for Pmsa003i {
    open spec fn spec_name() -> Seq<char> {
        "PMSA003I"@
    }

    open spec fn spec_period_ms() -> u64 {
        2000
    }

    fn name(&self) -> (r: &'static str) {
        "PMSA003I"
    }

    fn poll_period(&self) -> (r: u64) {
        2000
    }
}

} // verus!

verus! {

/// No data loss: a successful poll writes every field of the reading to its own
/// gauge, each exactly once, and reports success.
pub proof fn lemma_every_field_published(s: Pmsa003i, m: PmReading)
    ensures
        ({
            let t = s.polled(Ok(m));
            &&& t.pm_gauges.pm1_0.value == m.concentrations.pm1_0 as int * 1000
            &&& t.pm_gauges.pm1_0_standard.value == m.concentrations.pm1_0_standard as int * 1000
            &&& t.pm_gauges.pm2_5.value == m.concentrations.pm2_5 as int * 1000
            &&& t.pm_gauges.pm2_5_standard.value == m.concentrations.pm2_5_standard as int * 1000
            &&& t.pm_gauges.pm10_0.value == m.concentrations.pm10_0 as int * 1000
            &&& t.pm_gauges.pm10_0_standard.value == m.concentrations.pm10_0_standard as int * 1000
            &&& t.count_gauges.particles_0_3um.value == m.counts.particles_0_3um as int * 1000
            &&& t.count_gauges.particles_0_5um.value == m.counts.particles_0_5um as int * 1000
            &&& t.count_gauges.particles_1_0um.value == m.counts.particles_1_0um as int * 1000
            &&& t.count_gauges.particles_2_5um.value == m.counts.particles_2_5um as int * 1000
            &&& t.count_gauges.particles_5_0um.value == m.counts.particles_5_0um as int * 1000
            &&& t.count_gauges.particles_10_0um.value == m.counts.particles_10_0um as int * 1000
            &&& t.pm_gauges.pm1_0.writes == bumped(s.pm_gauges.pm1_0.writes)
            &&& t.pm_gauges.pm1_0_standard.writes == bumped(s.pm_gauges.pm1_0_standard.writes)
            &&& t.pm_gauges.pm2_5.writes == bumped(s.pm_gauges.pm2_5.writes)
            &&& t.pm_gauges.pm2_5_standard.writes == bumped(s.pm_gauges.pm2_5_standard.writes)
            &&& t.pm_gauges.pm10_0.writes == bumped(s.pm_gauges.pm10_0.writes)
            &&& t.pm_gauges.pm10_0_standard.writes == bumped(s.pm_gauges.pm10_0_standard.writes)
            &&& t.count_gauges.particles_0_3um.writes == bumped(s.count_gauges.particles_0_3um.writes)
            &&& t.count_gauges.particles_0_5um.writes == bumped(s.count_gauges.particles_0_5um.writes)
            &&& t.count_gauges.particles_1_0um.writes == bumped(s.count_gauges.particles_1_0um.writes)
            &&& t.count_gauges.particles_2_5um.writes == bumped(s.count_gauges.particles_2_5um.writes)
            &&& t.count_gauges.particles_5_0um.writes == bumped(s.count_gauges.particles_5_0um.writes)
            &&& t.count_gauges.particles_10_0um.writes == bumped(s.count_gauges.particles_10_0um.writes)
        }),
        poll_result::<PmReading>(Ok(m)) == Ok::<(), PollError>(()),
{
}

} // verus!
