//! The statistic that is reported for each program point.

use vstd::prelude::*;

verus! {

/// Which of a program point's statistics to measure.
#[derive(Clone, Copy, Debug, PartialEq, Eq, Structural)]
pub enum Metric {
    /// Everything that was ever allocated at the program point.
    Total,
    /// The most that was live at the program point at any one time.
    Max,
    /// What was still live at the program point when the program ended.
    End,
    /// What was live at the program point when the whole heap was at its peak.
    HeapMax,
}

impl Metric {
    /// True for the metrics that are snapshots of the live heap. A profiler
    /// only has them when it tracked block lifetimes.
    pub open spec fn is_snapshot(self) -> bool {
        self != Metric::Total
    }

    /// The metric that a request stands for: `Total` where none is named.
    pub open spec fn or_default(requested: Option<Metric>) -> Metric {
        match requested {
            Some(metric) => metric,
            None => Metric::Total,
        }
    }

    /// The metric's name as it appears in messages.
    pub open spec fn name_spec(self) -> Seq<char> {
        match self {
            Metric::Total => "total"@,
            Metric::Max => "max"@,
            Metric::End => "end"@,
            Metric::HeapMax => "heap max"@,
        }
    }

    /// The metric's name as it appears in messages.
    pub fn name(&self) -> (s: &'static str)
        ensures
            s@ == self.name_spec(),
    {
        match self {
            Metric::Total => "total",
            Metric::Max => "max",
            Metric::End => "end",
            Metric::HeapMax => "heap max",
        }
    }
}

impl Default for Metric {
    /// The total is measured unless another metric is asked for.
    fn default() -> (m: Metric)
        ensures
            m == Metric::Total,
    {
        Metric::Total
    }
}

} // verus!
