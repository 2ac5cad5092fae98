//! From a metric and a unit to the statistic that is read off each program
//! point.
//!
//! | metric   | bytes          | blocks          | lifetimes       |
//! |----------|----------------|-----------------|-----------------|
//! | total    | total bytes    | total blocks    | total lifetimes |
//! | max      | max bytes      | max blocks      | rejected        |
//! | end      | end bytes      | end blocks      | rejected        |
//! | heap max | heap max bytes | heap max blocks | rejected        |
//!
//! Everything but the first two entries of the first row exists only in a
//! profile that was recorded with block lifetimes.

use crate::dhat::{ProgramPoint, ProgramPointView};
use crate::error::Error;
use crate::metric::Metric;
use crate::unit::Unit;
use vstd::prelude::*;

verus! {

/// A statistic of a program point.
#[derive(Clone, Copy, Debug, PartialEq, Eq, Structural)]
pub enum Field {
    /// Bytes allocated over the whole run.
    TotalBytes,
    /// Blocks allocated over the whole run.
    TotalBlocks,
    /// Sum of the lifetimes of the blocks allocated over the whole run.
    TotalLifetimes,
    /// Most bytes live at once.
    MaxBytes,
    /// Most blocks live at once.
    MaxBlocks,
    /// Bytes live at the end of the run.
    EndBytes,
    /// Blocks live at the end of the run.
    EndBlocks,
    /// Bytes live when the heap was at its global peak.
    HeapMaxBytes,
    /// Blocks live when the heap was at its global peak.
    HeapMaxBlocks,
}

/// The statistic that a metric and a unit stand for in a profile that was
/// recorded with (`lifetimes_recorded`) or without block lifetimes, or the
/// reason why they stand for none.
///
/// The checks come in a fixed order and the first that fails decides: the
/// unit against the profile, the metric against the profile, then the metric
/// against the unit.
pub open spec fn selection(metric: Metric, unit: Unit, lifetimes_recorded: bool) -> Result<
    Field,
    Error,
> {
    if unit == Unit::Lifetimes && !lifetimes_recorded {
        Err(Error::UnsupportedUnit)
    } else if metric.is_snapshot() && !lifetimes_recorded {
        Err(Error::UnsupportedMetric(metric))
    } else {
        match (metric, unit) {
            (Metric::Total, Unit::Bytes) => Ok(Field::TotalBytes),
            (Metric::Total, Unit::Blocks) => Ok(Field::TotalBlocks),
            (Metric::Total, Unit::Lifetimes) => Ok(Field::TotalLifetimes),
            (Metric::Max, Unit::Bytes) => Ok(Field::MaxBytes),
            (Metric::Max, Unit::Blocks) => Ok(Field::MaxBlocks),
            (Metric::Max, Unit::Lifetimes) => Err(Error::UnsupportedCombination),
            (Metric::End, Unit::Bytes) => Ok(Field::EndBytes),
            (Metric::End, Unit::Blocks) => Ok(Field::EndBlocks),
            (Metric::End, Unit::Lifetimes) => Err(Error::UnsupportedCombination),
            (Metric::HeapMax, Unit::Bytes) => Ok(Field::HeapMaxBytes),
            (Metric::HeapMax, Unit::Blocks) => Ok(Field::HeapMaxBlocks),
            (Metric::HeapMax, Unit::Lifetimes) => Err(Error::UnsupportedCombination),
        }
    }
}

/// Picks the statistic for a metric and a unit, or says why the profile
/// cannot serve them.
pub fn select(metric: Metric, unit: Unit, lifetimes_recorded: bool) -> (res: Result<Field, Error>)
    ensures
        res == selection(metric, unit, lifetimes_recorded),
{
    if !lifetimes_recorded {
        match (metric, unit) {
            (_, Unit::Lifetimes) => { return Err(Error::UnsupportedUnit); },
            (Metric::Total, _) => {},
            _ => { return Err(Error::UnsupportedMetric(metric)); },
        }
    }
    match unit {
        Unit::Bytes => Ok(
            match metric {
                Metric::Total => Field::TotalBytes,
                Metric::Max => Field::MaxBytes,
                Metric::End => Field::EndBytes,
                Metric::HeapMax => Field::HeapMaxBytes,
            },
        ),
        Unit::Blocks => Ok(
            match metric {
                Metric::Total => Field::TotalBlocks,
                Metric::Max => Field::MaxBlocks,
                Metric::End => Field::EndBlocks,
                Metric::HeapMax => Field::HeapMaxBlocks,
            },
        ),
        Unit::Lifetimes => match metric {
            Metric::Total => Ok(Field::TotalLifetimes),
            _ => Err(Error::UnsupportedCombination),
        },
    }
}

impl Field {
    /// True for the statistics that every profile holds.
    pub open spec fn always_recorded(self) -> bool {
        self == Field::TotalBytes || self == Field::TotalBlocks
    }

    /// What a program point holds for this statistic, if anything.
    pub open spec fn value(self, point: ProgramPointView) -> Option<nat> {
        match self {
            Field::TotalBytes => Some(point.total_bytes),
            Field::TotalBlocks => Some(point.total_blocks),
            Field::TotalLifetimes => point.total_lifetimes,
            Field::MaxBytes => point.max_bytes,
            Field::MaxBlocks => point.max_blocks,
            Field::EndBytes => point.end_bytes,
            Field::EndBlocks => point.end_blocks,
            Field::HeapMaxBytes => point.heap_max_bytes,
            Field::HeapMaxBlocks => point.heap_max_blocks,
        }
    }

    /// Reads this statistic off a program point. A point that lacks it is one
    /// that the profile should not hold, so that is a corrupt record.
    pub fn extract(&self, point: &ProgramPoint) -> (res: Result<u128, Error>)
        ensures
            match self.value(point@) {
                Some(n) => res matches Ok(found) && found == n,
                None => res matches Err(e) && e == Error::CorruptRecord,
            },
    {
        let found: Option<u128> = match self {
            Field::TotalBytes => Some(point.total_bytes as u128),
            Field::TotalBlocks => Some(point.total_blocks as u128),
            Field::TotalLifetimes => point.total_lifetimes,
            Field::MaxBytes => widen(point.max_bytes),
            Field::MaxBlocks => widen(point.max_blocks),
            Field::EndBytes => widen(point.end_bytes),
            Field::EndBlocks => widen(point.end_blocks),
            Field::HeapMaxBytes => widen(point.heap_max_bytes),
            Field::HeapMaxBlocks => widen(point.heap_max_blocks),
        };
        match found {
            Some(n) => Ok(n),
            None => Err(Error::CorruptRecord),
        }
    }
}

/// The same count, if there is one, in the width of a frequency.
fn widen(count: Option<usize>) -> (wide: Option<u128>)
    ensures
        match count {
            Some(n) => wide == Some(n as u128),
            None => wide.is_none(),
        },
{
    match count {
        Some(n) => Some(n as u128),
        None => None,
    }
}

/// In a profile without block lifetimes, asking for lifetimes as the unit
/// fails as an unsupported unit, whatever the metric, and asking for a
/// snapshot metric in bytes or blocks fails as an unsupported metric. Nothing
/// is replaced by a default.
pub proof fn lemma_needs_lifetimes(metric: Metric, unit: Unit)
    ensures
        unit == Unit::Lifetimes ==> selection(metric, unit, false) == Err::<Field, Error>(
            Error::UnsupportedUnit,
        ),
        metric != Metric::Total && unit != Unit::Lifetimes ==> selection(metric, unit, false)
            == Err::<Field, Error>(Error::UnsupportedMetric(metric)),
{
}

/// In a profile with block lifetimes, lifetimes of anything but the total
/// are refused as an unsupported combination. (Without block lifetimes the
/// unit is refused before the combination is looked at.)
pub proof fn lemma_only_total_lifetimes(metric: Metric)
    requires
        metric != Metric::Total,
    ensures
        selection(metric, Unit::Lifetimes, true) == Err::<Field, Error>(
            Error::UnsupportedCombination,
        ),
        selection(metric, Unit::Lifetimes, false) is Err,
{
}

/// A selection succeeds exactly when the profile holds what it needs: bytes
/// and blocks of the total always, everything else but lifetimes of a
/// snapshot when block lifetimes were recorded.
pub proof fn lemma_selection_succeeds(metric: Metric, unit: Unit, lifetimes_recorded: bool)
    ensures
        selection(metric, unit, lifetimes_recorded) is Ok <==> {
            ||| metric == Metric::Total && unit != Unit::Lifetimes
            ||| lifetimes_recorded && (metric == Metric::Total || unit != Unit::Lifetimes)
        },
        selection(metric, unit, lifetimes_recorded) matches Ok(field) ==> (lifetimes_recorded
            || field.always_recorded()),
{
}

} // verus!
