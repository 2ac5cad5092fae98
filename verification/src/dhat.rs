//! The profile as DHAT writes it: one document per profiled run.
//!
//! The types here hold what the document holds and nothing else. Several
//! fields exist only in profiles that were recorded with block lifetimes; they
//! are options, and `DhatView::wf` says when they must be there.

use vstd::prelude::*;
use vstd::string::StringExecFns;

verus! {

/// The statistics of one allocation site.
#[derive(Clone, Debug)]
pub struct ProgramPoint {
    /// Bytes allocated here over the whole run (`tb`).
    pub total_bytes: u64,
    /// Blocks allocated here over the whole run (`tbk`).
    pub total_blocks: u64,
    /// Sum of the lifetimes of the blocks allocated here (`tl`). Only with
    /// block lifetimes.
    pub total_lifetimes: Option<u128>,
    /// Most bytes live at once (`mb`). Only with block lifetimes.
    pub max_bytes: Option<usize>,
    /// Most blocks live at once (`mbk`). Only with block lifetimes.
    pub max_blocks: Option<usize>,
    /// Bytes live when the heap was at its global peak (`gb`). Only with
    /// block lifetimes.
    pub heap_max_bytes: Option<usize>,
    /// Blocks live when the heap was at its global peak (`gbk`). Only with
    /// block lifetimes.
    pub heap_max_blocks: Option<usize>,
    /// Bytes still live at the end of the run (`eb`). Only with block
    /// lifetimes.
    pub end_bytes: Option<usize>,
    /// Blocks still live at the end of the run (`ebk`). Only with block
    /// lifetimes.
    pub end_blocks: Option<usize>,
    /// The call stack of the site, outermost frame first (`fs`). Each entry
    /// is an index into the document's frame table.
    pub frames: Vec<usize>,
}

/// A program point as a mathematical value.
pub struct ProgramPointView {
    pub total_bytes: nat,
    pub total_blocks: nat,
    pub total_lifetimes: Option<nat>,
    pub max_bytes: Option<nat>,
    pub max_blocks: Option<nat>,
    pub heap_max_bytes: Option<nat>,
    pub heap_max_blocks: Option<nat>,
    pub end_bytes: Option<nat>,
    pub end_blocks: Option<nat>,
    pub frames: Seq<nat>,
}

/// The stack's entries as numbers.
pub open spec fn indices(frames: Seq<usize>) -> Seq<nat> {
    Seq::new(frames.len(), |i: int| frames[i] as nat)
}

/// The count that an optional machine-sized field holds, if it holds one.
pub open spec fn count_of(field: Option<usize>) -> Option<nat> {
    match field {
        Some(n) => Some(n as nat),
        None => None,
    }
}

impl View for ProgramPoint {
    type V = ProgramPointView;

    open spec fn view(&self) -> ProgramPointView {
        ProgramPointView {
            total_bytes: self.total_bytes as nat,
            total_blocks: self.total_blocks as nat,
            total_lifetimes: match self.total_lifetimes {
                Some(n) => Some(n as nat),
                None => None,
            },
            max_bytes: count_of(self.max_bytes),
            max_blocks: count_of(self.max_blocks),
            heap_max_bytes: count_of(self.heap_max_bytes),
            heap_max_blocks: count_of(self.heap_max_blocks),
            end_bytes: count_of(self.end_bytes),
            end_blocks: count_of(self.end_blocks),
            frames: indices(self.frames@),
        }
    }
}

impl ProgramPointView {
    /// True if the statistics that come with block lifetimes are all there.
    pub open spec fn has_lifetime_fields(self) -> bool {
        &&& self.total_lifetimes is Some
        &&& self.max_bytes is Some
        &&& self.max_blocks is Some
        &&& self.heap_max_bytes is Some
        &&& self.heap_max_blocks is Some
        &&& self.end_bytes is Some
        &&& self.end_blocks is Some
    }

    /// True if none of the statistics that come with block lifetimes is there.
    pub open spec fn lacks_lifetime_fields(self) -> bool {
        &&& self.total_lifetimes is None
        &&& self.max_bytes is None
        &&& self.max_blocks is None
        &&& self.heap_max_bytes is None
        &&& self.heap_max_blocks is None
        &&& self.end_bytes is None
        &&& self.end_blocks is None
    }

    /// True if every frame of the stack is an entry of a table of
    /// `table_len` frames.
    pub open spec fn frames_within(self, table_len: nat) -> bool {
        forall|i: int| 0 <= i < self.frames.len() ==> self.frames[i] < table_len
    }
}

/// One DHAT document.
#[allow(non_snake_case)]
#[derive(Clone, Debug)]
pub struct Dhat {
    /// Version of the file format.
    pub dhatFileVersion: u32,
    /// How the profiler was invoked. Free-form.
    pub mode: String,
    /// The word that goes before a stack when it is printed, such as
    /// "Allocated".
    pub verb: String,
    /// Were block lifetimes recorded? Decides whether the optional fields
    /// are there.
    pub bklt: bool,
    /// Were block accesses recorded?
    pub bkacc: bool,
    /// Name of the unit for a single byte. "byte" if left out.
    pub bu: Option<String>,
    /// Name of the unit for several bytes. "bytes" if left out.
    pub bsu: Option<String>,
    /// Name of the unit for several blocks. "blocks" if left out.
    pub bksu: Option<String>,
    /// Name of the time unit.
    pub tu: String,
    /// Name of a million time units.
    pub Mtu: String,
    /// Blocks that lived at most this long count as short-lived. Only with
    /// block lifetimes.
    pub tuth: Option<usize>,
    /// The command that was profiled.
    pub cmd: String,
    /// The process that was profiled.
    pub pid: u32,
    /// When the heap was at its global peak. Only with block lifetimes.
    pub tg: Option<u128>,
    /// When the run ended.
    pub te: u128,
    /// The allocation sites (`pps`).
    pub program_points: Vec<ProgramPoint>,
    /// The frames that the stacks of the program points refer to (`ftbl`).
    pub frame_table: Vec<String>,
}

/// A document as a mathematical value.
#[allow(non_snake_case)]
pub struct DhatView {
    pub dhatFileVersion: nat,
    pub mode: Seq<char>,
    pub verb: Seq<char>,
    pub bklt: bool,
    pub bkacc: bool,
    pub bu: Option<Seq<char>>,
    pub bsu: Option<Seq<char>>,
    pub bksu: Option<Seq<char>>,
    pub tu: Seq<char>,
    pub Mtu: Seq<char>,
    pub tuth: Option<nat>,
    pub cmd: Seq<char>,
    pub pid: nat,
    pub tg: Option<nat>,
    pub te: nat,
    pub program_points: Seq<ProgramPointView>,
    pub frame_table: Seq<Seq<char>>,
}

/// The text that an optional label holds, if it holds one.
pub open spec fn label_of(field: Option<String>) -> Option<Seq<char>> {
    match field {
        Some(s) => Some(s@),
        None => None,
    }
}

impl View for Dhat {
    type V = DhatView;

    open spec fn view(&self) -> DhatView {
        DhatView {
            dhatFileVersion: self.dhatFileVersion as nat,
            mode: self.mode@,
            verb: self.verb@,
            bklt: self.bklt,
            bkacc: self.bkacc,
            bu: label_of(self.bu),
            bsu: label_of(self.bsu),
            bksu: label_of(self.bksu),
            tu: self.tu@,
            Mtu: self.Mtu@,
            tuth: count_of(self.tuth),
            cmd: self.cmd@,
            pid: self.pid as nat,
            tg: match self.tg {
                Some(n) => Some(n as nat),
                None => None,
            },
            te: self.te as nat,
            program_points: Seq::new(
                self.program_points@.len(),
                |i: int| self.program_points@[i]@,
            ),
            frame_table: self.frame_table.deep_view(),
        }
    }
}

impl DhatView {
    /// The name of the unit for a single byte.
    pub open spec fn byte_unit(self) -> Seq<char> {
        match self.bu {
            Some(name) => name,
            None => "byte"@,
        }
    }

    /// The name of the unit for several bytes.
    pub open spec fn bytes_unit(self) -> Seq<char> {
        match self.bsu {
            Some(name) => name,
            None => "bytes"@,
        }
    }

    /// The name of the unit for several blocks.
    pub open spec fn blocks_unit(self) -> Seq<char> {
        match self.bksu {
            Some(name) => name,
            None => "blocks"@,
        }
    }

    /// What a profiler promises of a document that it writes: every stack
    /// stays within the frame table, and the fields that come with block
    /// lifetimes are there exactly when `bklt` says so.
    pub open spec fn wf(self) -> bool {
        &&& self.tuth is Some <==> self.bklt
        &&& self.tg is Some <==> self.bklt
        &&& forall|i: int|
            0 <= i < self.program_points.len() ==> {
                let point = #[trigger] self.program_points[i];
                &&& point.frames_within(self.frame_table.len())
                &&& if self.bklt {
                    point.has_lifetime_fields()
                } else {
                    point.lacks_lifetime_fields()
                }
            }
    }
}

impl ProgramPoint {
    /// True if the statistics that come with block lifetimes are all there.
    pub fn has_lifetime_fields(&self) -> (all: bool)
        ensures
            all == self@.has_lifetime_fields(),
    {
        self.total_lifetimes.is_some() && self.max_bytes.is_some() && self.max_blocks.is_some()
            && self.heap_max_bytes.is_some() && self.heap_max_blocks.is_some()
            && self.end_bytes.is_some() && self.end_blocks.is_some()
    }

    /// True if none of the statistics that come with block lifetimes is there.
    pub fn lacks_lifetime_fields(&self) -> (none: bool)
        ensures
            none == self@.lacks_lifetime_fields(),
    {
        self.total_lifetimes.is_none() && self.max_bytes.is_none() && self.max_blocks.is_none()
            && self.heap_max_bytes.is_none() && self.heap_max_blocks.is_none()
            && self.end_bytes.is_none() && self.end_blocks.is_none()
    }

    /// True if every frame of the stack is an entry of a table of
    /// `table_len` frames.
    pub fn frames_within(&self, table_len: usize) -> (within: bool)
        ensures
            within == self@.frames_within(table_len as nat),
    {
        let mut i: usize = 0;
        while i < self.frames.len()
            invariant
                i <= self.frames.len(),
                forall|j: int| 0 <= j < i ==> self@.frames[j] < table_len,
            decreases self.frames.len() - i,
        {
            if self.frames[i] >= table_len {
                assert(!(self@.frames[i as int] < table_len));
                return false;
            }
            i += 1;
        }
        true
    }
}

/// The label itself, or the default where the document names none.
fn label_or(label: &Option<String>, default: &str) -> (name: String)
    ensures
        name@ == match label_of(*label) {
            Some(given) => given,
            None => default@,
        },
{
    match label {
        Some(given) => given.clone(),
        None => String::from_str(default),
    }
}

impl Dhat {
    /// Checks the document against what a profiler promises of it.
    pub fn is_well_formed(&self) -> (ok: bool)
        ensures
            ok == self@.wf(),
    {
        if self.tuth.is_some() != self.bklt || self.tg.is_some() != self.bklt {
            return false;
        }
        let table_len: usize = self.frame_table.len();
        let mut i: usize = 0;
        while i < self.program_points.len()
            invariant
                i <= self.program_points.len(),
                table_len == self@.frame_table.len(),
                forall|j: int|
                    0 <= j < i ==> {
                        let point = #[trigger] self@.program_points[j];
                        &&& point.frames_within(table_len as nat)
                        &&& if self.bklt {
                            point.has_lifetime_fields()
                        } else {
                            point.lacks_lifetime_fields()
                        }
                    },
            decreases self.program_points.len() - i,
        {
            let point = &self.program_points[i];
            assert(point@ == self@.program_points[i as int]);
            let complete = if self.bklt {
                point.has_lifetime_fields()
            } else {
                point.lacks_lifetime_fields()
            };
            if !complete || !point.frames_within(table_len) {
                return false;
            }
            i += 1;
        }
        true
    }

    /// The name of the unit for a single byte: `bu`, or "byte".
    pub fn byte_unit(&self) -> (name: String)
        ensures
            name@ == self@.byte_unit(),
    {
        label_or(&self.bu, "byte")
    }

    /// The name of the unit for several bytes: `bsu`, or "bytes".
    pub fn bytes_unit(&self) -> (name: String)
        ensures
            name@ == self@.bytes_unit(),
    {
        label_or(&self.bsu, "bytes")
    }

    /// The name of the unit for several blocks: `bksu`, or "blocks".
    pub fn blocks_unit(&self) -> (name: String)
        ensures
            name@ == self@.blocks_unit(),
    {
        label_or(&self.bksu, "blocks")
    }
}

} // verus!
