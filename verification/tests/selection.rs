use dhat_to_flamegraph::error::Error;
use dhat_to_flamegraph::metric::Metric;
use dhat_to_flamegraph::selector::{select, Field};
use dhat_to_flamegraph::unit::Unit;

const METRICS: [Metric; 4] = [Metric::Total, Metric::Max, Metric::End, Metric::HeapMax];
const UNITS: [Unit; 3] = [Unit::Bytes, Unit::Blocks, Unit::Lifetimes];

#[test]
fn table_with_lifetimes_recorded() {
    assert_eq!(select(Metric::Total, Unit::Bytes, true), Ok(Field::TotalBytes));
    assert_eq!(select(Metric::Total, Unit::Blocks, true), Ok(Field::TotalBlocks));
    assert_eq!(select(Metric::Total, Unit::Lifetimes, true), Ok(Field::TotalLifetimes));
    assert_eq!(select(Metric::Max, Unit::Bytes, true), Ok(Field::MaxBytes));
    assert_eq!(select(Metric::Max, Unit::Blocks, true), Ok(Field::MaxBlocks));
    assert_eq!(select(Metric::End, Unit::Bytes, true), Ok(Field::EndBytes));
    assert_eq!(select(Metric::End, Unit::Blocks, true), Ok(Field::EndBlocks));
    assert_eq!(select(Metric::HeapMax, Unit::Bytes, true), Ok(Field::HeapMaxBytes));
    assert_eq!(select(Metric::HeapMax, Unit::Blocks, true), Ok(Field::HeapMaxBlocks));
}

#[test]
fn totals_need_no_lifetimes() {
    assert_eq!(select(Metric::Total, Unit::Bytes, false), Ok(Field::TotalBytes));
    assert_eq!(select(Metric::Total, Unit::Blocks, false), Ok(Field::TotalBlocks));
}

#[test]
fn lifetimes_unit_needs_lifetimes_recorded() {
    for metric in METRICS {
        assert_eq!(select(metric, Unit::Lifetimes, false), Err(Error::UnsupportedUnit));
    }
}

#[test]
fn snapshot_metrics_need_lifetimes_recorded() {
    for metric in [Metric::Max, Metric::End, Metric::HeapMax] {
        for unit in [Unit::Bytes, Unit::Blocks] {
            assert_eq!(select(metric, unit, false), Err(Error::UnsupportedMetric(metric)));
        }
    }
}

#[test]
fn nothing_but_totals_without_lifetimes() {
    for metric in METRICS {
        for unit in UNITS {
            let wanted = metric == Metric::Total && unit != Unit::Lifetimes;
            assert_eq!(select(metric, unit, false).is_ok(), wanted);
        }
    }
}

#[test]
fn only_total_lifetimes_are_supported() {
    for metric in [Metric::Max, Metric::End, Metric::HeapMax] {
        assert_eq!(select(metric, Unit::Lifetimes, true), Err(Error::UnsupportedCombination));
    }
}

#[test]
fn unit_is_checked_before_metric_and_combination() {
    assert_eq!(select(Metric::Max, Unit::Lifetimes, false), Err(Error::UnsupportedUnit));
    assert_eq!(select(Metric::HeapMax, Unit::Lifetimes, false), Err(Error::UnsupportedUnit));
}

#[test]
fn defaults_are_total_bytes() {
    assert_eq!(Metric::default(), Metric::Total);
    assert_eq!(Unit::default(), Unit::Bytes);
}

#[test]
fn metric_names() {
    assert_eq!(Metric::Total.name(), "total");
    assert_eq!(Metric::Max.name(), "max");
    assert_eq!(Metric::End.name(), "end");
    assert_eq!(Metric::HeapMax.name(), "heap max");
}

#[test]
fn error_messages() {
    assert_eq!(Error::UnsupportedUnit.message(), "lifetimes were not recorded in the profile");
    assert_eq!(Error::UnsupportedCombination.message(), "only total lifetimes are supported");
    assert_eq!(
        Error::UnsupportedMetric(Metric::Max).message(),
        "lifetimes were not recorded in the dhat profile, cannot compute `max` metric"
    );
    assert_eq!(
        Error::UnsupportedMetric(Metric::End).message(),
        "lifetimes were not recorded in the dhat profile, cannot compute `end` metric"
    );
    assert_eq!(
        Error::UnsupportedMetric(Metric::HeapMax).message(),
        "lifetimes were not recorded in the dhat profile, cannot compute `heap max` metric"
    );
    assert_eq!(Error::MalformedInput.message(), "the input is not a well-formed profile");
    assert_eq!(Error::CorruptRecord.message(), "the profile is inconsistent");
}
