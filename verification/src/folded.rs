//! Folded stack traces: what a profile becomes, and how it is written out.
//!
//! Each program point of the profile gives one trace, in the profile's
//! order: its stack with the frame names looked up in the frame table, and
//! the statistic that the metric and the unit select. Equal stacks are not
//! merged. Written out, a trace is its frames joined by `;`, a space and the
//! frequency in decimal; a trace without frames is the frequency alone. Frame
//! names are written as they are, also where they hold `;` or a space.

use crate::dhat::{indices, Dhat, DhatView, ProgramPointView};
use crate::error::Error;
use crate::metric::Metric;
use crate::selector::{select, selection, Field};
use crate::text::{concat, decimal, join, joined, push_decimal};
use crate::unit::Unit;
use vstd::prelude::*;
use vstd::string::StringExecFns;

verus! {

/// A stack trace and a frequency.
#[derive(Clone, Debug, PartialEq, Eq)]
pub struct Trace {
    /// The names of the frames, outermost first.
    pub trace: Vec<String>,
    /// How much the stack weighs. Sums of lifetimes outgrow 64 bits.
    pub frequency: u128,
}

/// A trace as a mathematical value.
pub struct TraceView {
    pub trace: Seq<Seq<char>>,
    pub frequency: nat,
}

impl View for Trace {
    type V = TraceView;

    open spec fn view(&self) -> TraceView {
        TraceView { trace: self.trace.deep_view(), frequency: self.frequency as nat }
    }
}

/// The folded stack traces of a profile.
#[derive(Clone, Debug, PartialEq, Eq)]
pub struct Folded {
    /// One trace for each program point, in the profile's order.
    pub lines: Vec<Trace>,
}

impl View for Folded {
    type V = Seq<TraceView>;

    open spec fn view(&self) -> Seq<TraceView> {
        Seq::new(self.lines@.len(), |i: int| self.lines@[i]@)
    }
}

/// The names of the frames of a stack, or nothing if the stack names a frame
/// that the table lacks.
pub open spec fn resolved(frames: Seq<nat>, table: Seq<Seq<char>>) -> Option<Seq<Seq<char>>> {
    if forall|i: int| 0 <= i < frames.len() ==> frames[i] < table.len() {
        Some(Seq::new(frames.len(), |i: int| table[frames[i] as int]))
    } else {
        None
    }
}

/// The trace of one program point: its stack with the names looked up and
/// the selected statistic. Nothing if a name or the statistic is missing.
pub open spec fn trace_of(point: ProgramPointView, table: Seq<Seq<char>>, field: Field) -> Option<
    TraceView,
> {
    match (resolved(point.frames, table), field.value(point)) {
        (Some(trace), Some(frequency)) => Some(TraceView { trace, frequency }),
        _ => None,
    }
}

/// The traces of a profile for a metric and a unit. The metric and the unit
/// are checked against the profile first; then every program point must give
/// a trace, or the profile is corrupt.
pub open spec fn traces(doc: DhatView, metric: Metric, unit: Unit) -> Result<
    Seq<TraceView>,
    Error,
> {
    match selection(metric, unit, doc.bklt) {
        Err(e) => Err(e),
        Ok(field) => {
            if forall|i: int|
                0 <= i < doc.program_points.len() ==> trace_of(
                    #[trigger] doc.program_points[i],
                    doc.frame_table,
                    field,
                ) is Some {
                Ok(
                    Seq::new(
                        doc.program_points.len(),
                        |i: int| trace_of(doc.program_points[i], doc.frame_table, field).unwrap(),
                    ),
                )
            } else {
                Err(Error::CorruptRecord)
            }
        },
    }
}

impl TraceView {
    /// The trace written out, without a line end.
    pub open spec fn text(self) -> Seq<char> {
        if self.trace.len() == 0 {
            decimal(self.frequency)
        } else {
            joined(self.trace, seq![';']) + seq![' '] + decimal(self.frequency)
        }
    }

    /// The trace written out as a line.
    pub open spec fn line(self) -> Seq<char> {
        self.text().push('\n')
    }
}

/// The lines of some traces, one for each, in their order.
pub open spec fn folded_lines(traces: Seq<TraceView>) -> Seq<Seq<char>> {
    Seq::new(traces.len(), |i: int| traces[i].line())
}

/// Some traces written out: their lines one after the other.
pub open spec fn folded_text(traces: Seq<TraceView>) -> Seq<char> {
    concat(folded_lines(traces))
}

/// Looks up the names of a stack's frames in the frame table.
pub fn resolve(frames: &Vec<usize>, frame_table: &Vec<String>) -> (res: Result<Vec<String>, Error>)
    ensures
        match resolved(indices(frames@), frame_table.deep_view()) {
            Some(names) => res matches Ok(found) && found.deep_view() == names,
            None => res matches Err(e) && e == Error::CorruptRecord,
        },
{
    let ghost table = frame_table.deep_view();
    let mut found: Vec<String> = Vec::new();
    let mut i: usize = 0;
    while i < frames.len()
        invariant
            i <= frames.len(),
            found.len() == i,
            table == frame_table.deep_view(),
            forall|j: int| 0 <= j < i ==> frames[j] < frame_table.len(),
            forall|j: int| 0 <= j < i ==> found[j]@ == table[frames[j] as int],
        decreases frames.len() - i,
    {
        let index: usize = frames[i];
        if index >= frame_table.len() {
            assert(!(indices(frames@)[i as int] < table.len()));
            return Err(Error::CorruptRecord);
        }
        found.push(frame_table[index].clone());
        i += 1;
    }
    Ok(found)
}

impl Folded {
    /// Builds the traces of a profile: one for each program point, with the
    /// statistic that `metric` and `unit` select.
    ///
    /// Fails if the profile cannot serve the metric and the unit, and
    /// otherwise if it is corrupt.
    pub fn from_dhat(dhat: Dhat, metric: Metric, unit: Unit) -> (res: Result<Folded, Error>)
        ensures
            match traces(dhat@, metric, unit) {
                Ok(expected) => res matches Ok(folded) && folded@ == expected,
                Err(reason) => res matches Err(e) && e == reason,
            },
    {
        let field = match select(metric, unit, dhat.bklt) {
            Ok(field) => field,
            Err(e) => { return Err(e); },
        };
        let ghost doc = dhat@;
        let mut lines: Vec<Trace> = Vec::new();
        let mut i: usize = 0;
        while i < dhat.program_points.len()
            invariant
                i <= dhat.program_points.len(),
                lines.len() == i,
                doc == dhat@,
                selection(metric, unit, doc.bklt) == Ok::<Field, Error>(field),
                forall|j: int|
                    0 <= j < i ==> trace_of(
                        #[trigger] doc.program_points[j],
                        doc.frame_table,
                        field,
                    ) == Some(lines[j]@),
            decreases dhat.program_points.len() - i,
        {
            let point = &dhat.program_points[i];
            let trace = match resolve(&point.frames, &dhat.frame_table) {
                Ok(trace) => trace,
                Err(_) => { return Err(Error::CorruptRecord); },
            };
            let frequency: u128 = match field.extract(point) {
                Ok(frequency) => frequency,
                Err(_) => {
                    assert(trace_of(doc.program_points[i as int], doc.frame_table, field) is None);
                    return Err(Error::CorruptRecord);
                },
            };
            lines.push(Trace { trace, frequency });
            i += 1;
        }
        Ok(Folded { lines })
    }

    /// Writes the traces out, each as a line of its own.
    pub fn to_string(&self) -> (text: String)
        ensures
            text@ == folded_text(self@),
    {
        let ghost all = folded_lines(self@);
        let mut text = String::new();
        let mut i: usize = 0;
        while i < self.lines.len()
            invariant
                i <= self.lines.len(),
                all == folded_lines(self@),
                text@ == concat(all.take(i as int)),
            decreases self.lines.len() - i,
        {
            self.lines[i].push_text(&mut text);
            text.append("\n");
            proof {
                reveal_strlit("\n");
                assert(all.take(i + 1).drop_last() =~= all.take(i as int));
            }
            i += 1;
        }
        assert(all.take(self.lines.len() as int) =~= all);
        text
    }
}

impl Trace {
    /// Writes the trace at the end of a string.
    fn push_text(&self, out: &mut String)
        ensures
            final(out)@ == old(out)@ + self@.text(),
    {
        if self.trace.len() > 0 {
            let sep = String::from_str(";");
            let frames = join(&self.trace, &sep);
            out.append(frames.as_str());
            out.append(" ");
        }
        push_decimal(out, self.frequency);
        proof {
            reveal_strlit(";");
            reveal_strlit(" ");
            assert(";"@ =~= seq![';']);
        }
    }

    /// Writes the trace out: the frames joined by `;`, a space, and the
    /// frequency. No line end.
    pub fn to_string(&self) -> (text: String)
        ensures
            text@ == self@.text(),
    {
        let mut text = String::new();
        self.push_text(&mut text);
        text
    }
}

/// Converts a profile to folded text: builds the traces for the metric and
/// the unit, where `None` stands for the default of each, and writes them
/// out.
pub fn convert(dhat: Dhat, metric: Option<Metric>, unit: Option<Unit>) -> (res: Result<
    String,
    Error,
>)
    ensures
        match traces(dhat@, Metric::or_default(metric), Unit::or_default(unit)) {
            Ok(built) => res matches Ok(text) && text@ == folded_text(built),
            Err(reason) => res matches Err(e) && e == reason,
        },
{
    let metric = match metric {
        Some(metric) => metric,
        None => Metric::default(),
    };
    let unit = match unit {
        Some(unit) => unit,
        None => Unit::default(),
    };
    match Folded::from_dhat(dhat, metric, unit) {
        Ok(folded) => Ok(folded.to_string()),
        Err(e) => Err(e),
    }
}

/// A profile without block lifetimes never serves lifetimes or a snapshot
/// metric, whatever else it holds. Lifetimes as the unit fail as an
/// unsupported unit, also with a snapshot metric; a snapshot metric in bytes
/// or blocks fails as an unsupported metric. No other statistic stands in.
pub proof fn lemma_unrecorded_lifetimes(doc: DhatView, metric: Metric, unit: Unit)
    requires
        !doc.bklt,
    ensures
        unit == Unit::Lifetimes ==> traces(doc, metric, unit) == Err::<Seq<TraceView>, Error>(
            Error::UnsupportedUnit,
        ),
        metric != Metric::Total && unit != Unit::Lifetimes ==> traces(doc, metric, unit) == Err::<
            Seq<TraceView>,
            Error,
        >(Error::UnsupportedMetric(metric)),
{
}

/// A profile with block lifetimes refuses lifetimes of anything but the
/// total as an unsupported combination, whatever else it holds. (A profile
/// without them refuses the unit first: see `lemma_unrecorded_lifetimes`.)
pub proof fn lemma_snapshot_lifetimes(doc: DhatView, metric: Metric)
    requires
        doc.bklt,
        metric != Metric::Total,
    ensures
        traces(doc, metric, Unit::Lifetimes) == Err::<Seq<TraceView>, Error>(
            Error::UnsupportedCombination,
        ),
{
}

/// Building the traces of a profile and writing them out gives exactly one
/// line for each program point, in the profile's order: line `i` is the
/// stack of point `i` with its names looked up, and the statistic of point
/// `i` that the metric and the unit select.
pub proof fn lemma_one_line_per_point(doc: DhatView, metric: Metric, unit: Unit)
    requires
        traces(doc, metric, unit) is Ok,
    ensures
        selection(metric, unit, doc.bklt) is Ok,
        ({
            let field = selection(metric, unit, doc.bklt).unwrap();
            let lines = folded_lines(traces(doc, metric, unit).unwrap());
            &&& folded_text(traces(doc, metric, unit).unwrap()) == concat(lines)
            &&& lines.len() == doc.program_points.len()
            &&& forall|i: int|
                0 <= i < lines.len() ==> {
                    let point = doc.program_points[i];
                    let trace = resolved(point.frames, doc.frame_table);
                    let frequency = field.value(point);
                    &&& trace is Some
                    &&& frequency is Some
                    &&& #[trigger] lines[i] == (TraceView {
                        trace: trace.unwrap(),
                        frequency: frequency.unwrap(),
                    }).line()
                }
        }),
{
}

/// A stack that names a frame outside the frame table makes the whole
/// conversion fail as a corrupt record, once the metric and the unit have
/// passed: no line is written for any program point.
pub proof fn lemma_stray_frame_is_corrupt(
    doc: DhatView,
    metric: Metric,
    unit: Unit,
    point: int,
    frame: int,
)
    requires
        selection(metric, unit, doc.bklt) is Ok,
        0 <= point < doc.program_points.len(),
        0 <= frame < doc.program_points[point].frames.len(),
        doc.program_points[point].frames[frame] >= doc.frame_table.len(),
    ensures
        traces(doc, metric, unit) == Err::<Seq<TraceView>, Error>(Error::CorruptRecord),
{
}

/// A well-formed profile is never found corrupt: the conversion succeeds
/// whenever the profile can serve the metric and the unit, and fails with
/// the selection's own error when it cannot.
pub proof fn lemma_well_formed_converts(doc: DhatView, metric: Metric, unit: Unit)
    requires
        doc.wf(),
    ensures
        match selection(metric, unit, doc.bklt) {
            Ok(_) => traces(doc, metric, unit) is Ok,
            Err(reason) => traces(doc, metric, unit) == Err::<Seq<TraceView>, Error>(reason),
        },
{
}

} // verus!
