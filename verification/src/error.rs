//! The ways in which a conversion can fail.

use crate::metric::Metric;
use vstd::prelude::*;
use vstd::string::StringExecFns;

verus! {

/// Why a profile could not be turned into folded traces.
///
/// Every error ends the conversion: nothing is retried and no partial output
/// is produced.
#[derive(Clone, Copy, Debug, PartialEq, Eq, Structural)]
pub enum Error {
    /// The input is not a profile: a mandatory field is missing, a value has
    /// the wrong shape or a number does not fit its field. Raised by whoever
    /// decodes the input.
    MalformedInput,
    /// Lifetimes were asked for as the unit, but the profile holds none.
    UnsupportedUnit,
    /// The metric is a snapshot of the live heap, but the profile was
    /// recorded without the block lifetimes that such snapshots come with.
    UnsupportedMetric(Metric),
    /// Lifetimes were asked for together with a metric other than the total.
    UnsupportedCombination,
    /// The profile contradicts itself: a stack names a frame that the frame
    /// table lacks, or a statistic that the profile claims to hold is absent.
    CorruptRecord,
}

impl Error {
    /// The text that `message` returns.
    pub open spec fn message_spec(self) -> Seq<char> {
        match self {
            Error::MalformedInput => "the input is not a well-formed profile"@,
            Error::UnsupportedUnit => "lifetimes were not recorded in the profile"@,
            Error::UnsupportedMetric(metric) => {
                "lifetimes were not recorded in the dhat profile, cannot compute `"@
                    + metric.name_spec() + "` metric"@
            },
            Error::UnsupportedCombination => "only total lifetimes are supported"@,
            Error::CorruptRecord => "the profile is inconsistent"@,
        }
    }

    /// A sentence that tells a user what went wrong.
    pub fn message(&self) -> (s: String)
        ensures
            s@ == self.message_spec(),
    {
        match self {
            Error::MalformedInput => String::from_str("the input is not a well-formed profile"),
            Error::UnsupportedUnit => String::from_str("lifetimes were not recorded in the profile"),
            Error::UnsupportedMetric(metric) => {
                let mut s = String::from_str(
                    "lifetimes were not recorded in the dhat profile, cannot compute `",
                );
                s.append(metric.name());
                s.append("` metric");
                s
            },
            Error::UnsupportedCombination => String::from_str("only total lifetimes are supported"),
            Error::CorruptRecord => String::from_str("the profile is inconsistent"),
        }
    }
}

} // verus!
