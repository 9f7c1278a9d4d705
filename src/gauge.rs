use vstd::prelude::*;

verus! {

/// The write count after one more write; it stops at the largest `u64`.
pub open spec fn bumped(n: u64) -> u64 {
    if n < u64::MAX { (n + 1) as u64 } else { n }
}

/// One named numeric gauge of the metrics sink.
///
/// `value` is held in thousandths of the gauge's unit (a temperature of
/// 21.3 °C reads 21300); `writes` counts the update calls it has received.
#[derive(Clone, Copy, Debug, PartialEq, Eq, Structural)]
pub struct Gauge {
    pub value: i64,
    pub writes: u64,
}

impl Gauge {
    /// A freshly registered gauge.
    pub open spec fn fresh() -> Gauge {
        Gauge { value: 0, writes: 0 }
    }

    /// The gauge after one update call with `v`.
    pub open spec fn written(self, v: i64) -> Gauge {
        Gauge { value: v, writes: bumped(self.writes) }
    }

    /// A freshly registered gauge: value zero, never written.
    pub fn new() -> (g: Gauge)
        ensures
            g == Gauge::fresh(),
    {
        Gauge { value: 0, writes: 0 }
    }

    /// Sets the gauge to `v`, counting one update call.
    pub fn set(&mut self, v: i64)
        ensures
            *final(self) == old(self).written(v),
    {
        self.value = v;
        if self.writes < u64::MAX {
            self.writes = self.writes + 1;
        }
    }
}

/// `count` units expressed in thousandths.
pub open spec fn milli(count: u16) -> i64 {
    (count as int * 1000) as i64
}

/// Converts a whole count into thousandths of a unit.
pub fn to_milli(count: u16) -> (r: i64)
    ensures
        r == milli(count),
        r == count as int * 1000,
{
    count as i64 * 1000
}

} // verus!
