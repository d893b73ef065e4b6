//! Compress and extract batches: what they write where, and the progress
//! they report on the way.
use vstd::prelude::*;
use crate::error::CommandError;
use crate::kind::{kind_of, parse_compression_type, CompressionType};
use crate::outdir::{decimal, decimal_string, directory_of, parent_or_current};
use crate::paths::{file_name_of, is_absolute_path, joined, path_file_name, path_is_absolute, path_join};

verus! {

/// The units that one file's progress is measured in: hundredths of a percent.
pub const FILE_UNITS: u64 = 10000;

#[derive(Clone, Copy, Debug, PartialEq, Eq, Structural)]
pub enum Operation {
    Compressing,
    Extracting,
}

/// One progress report. The overall progress is `done / whole` of the
/// batch, that is `100 * done / whole` percent.
#[derive(Clone, Debug)]
pub struct ProgressSnapshot {
    pub done: u64,
    pub whole: u64,
    pub current_file: String,
    pub total_files: usize,
    /// Counted from 1.
    pub current_file_index: usize,
    pub operation: Operation,
}

impl ProgressSnapshot {
    /// The progress lies between none and all of the batch.
    pub open spec fn wf(&self) -> bool {
        0 < self.whole && self.done <= self.whole
    }
}

pub open spec fn min_units(u: nat) -> nat {
    if u <= FILE_UNITS {
        u
    } else {
        FILE_UNITS as nat
    }
}

/// Units done once `index` files are complete and the next is `file_units`
/// along. Each file's progress stays within its own slice of the batch.
pub open spec fn extraction_done(index: nat, file_units: nat) -> nat {
    index * (FILE_UNITS as nat) + min_units(file_units)
}

/// Units in a batch of `total` files.
pub open spec fn extraction_whole(total: nat) -> nat {
    total * (FILE_UNITS as nat)
}

/// Batch progress never goes back: a later file, or the same file further
/// along, reports at least as much, the end of one file is the start of the
/// next, and no report passes the whole batch.
pub proof fn lemma_extraction_progress_monotone(total: nat, i: nat, p: nat, j: nat, q: nat)
    requires
        i < total,
        j < total,
        i < j || (i == j && p <= q),
    ensures
        extraction_done(i, p) <= extraction_done(j, q),
        extraction_done(i, FILE_UNITS as nat) == extraction_done(i + 1, 0),
        extraction_done(j, q) <= extraction_whole(total),
{
    if i < j {
        assert(i * FILE_UNITS + FILE_UNITS <= j * FILE_UNITS) by (nonlinear_arith)
            requires
                i < j,
        ;
    }
    assert(j * FILE_UNITS + FILE_UNITS <= total * FILE_UNITS) by (nonlinear_arith)
        requires
            j < total,
    ;
    assert((i + 1) * FILE_UNITS == i * FILE_UNITS + FILE_UNITS) by (nonlinear_arith);
}

/// The name of the file an archive path ends in, empty where it has none.
pub open spec fn file_name_or_empty(p: Seq<char>) -> Seq<char> {
    match file_name_of(p) {
        Some(n) => n,
        None => Seq::empty(),
    }
}

/// The text a finished extraction batch reports.
pub open spec fn extraction_message(extracted_to: Seq<Seq<char>>) -> Seq<char> {
    if extracted_to.len() == 1 {
        "File decompressed successfully to: "@ + extracted_to[0]
    } else {
        "Files decompressed successfully. "@ + decimal(extracted_to.len()) + " archives processed."@
    }
}

/// An extraction batch in progress. Archives are extracted one at a time, in
/// order, and the first failure ends the batch.
pub struct ExtractionBatch {
    sources: Vec<String>,
    next: usize,
    extracted_to: Vec<String>,
}

impl ExtractionBatch {
    pub closed spec fn sources(&self) -> Seq<String> {
        self.sources@
    }

    /// How many archives have been extracted; the next one has this index.
    pub closed spec fn next(&self) -> nat {
        self.next as nat
    }

    /// Where each extracted archive went, in order.
    pub closed spec fn extracted_to(&self) -> Seq<Seq<char>> {
        self.extracted_to@.map_values(|s: String| s@)
    }

    pub closed spec fn wf(&self) -> bool {
        &&& self.next <= self.sources.len()
        &&& self.extracted_to.len() == self.next
        &&& self.sources.len() * FILE_UNITS <= u64::MAX
    }

    pub fn new(sources: Vec<String>) -> (r: ExtractionBatch)
        requires
            sources.len() * FILE_UNITS <= u64::MAX,
        ensures
            r.wf(),
            r.sources() == sources@,
            r.next() == 0,
            r.extracted_to() == Seq::<Seq<char>>::empty(),
    {
        let r = ExtractionBatch { sources, next: 0, extracted_to: Vec::new() };
        proof {
            assert(r.extracted_to() =~= Seq::<Seq<char>>::empty());
        }
        r
    }

    /// The archive to extract next, if any is left.
    pub fn current_source(&self) -> (r: Option<String>)
        requires
            self.wf(),
        ensures
            self.next() < self.sources().len() ==> r is Some && r->0 == self.sources()[self.next() as int],
            self.next() == self.sources().len() ==> r is None,
    {
        if self.next < self.sources.len() {
            Some(self.sources[self.next].clone())
        } else {
            None
        }
    }

    /// The report made before the next archive starts.
    pub fn start_snapshot(&self) -> (r: ProgressSnapshot)
        requires
            self.wf(),
            self.next() < self.sources().len(),
        ensures
            r.wf(),
            r.done == extraction_done(self.next(), 0),
            r.whole == extraction_whole(self.sources().len()),
            r.current_file@ == file_name_or_empty(self.sources()[self.next() as int]@),
            r.total_files == self.sources().len(),
            r.current_file_index == self.next() + 1,
            r.operation == Operation::Extracting,
    {
        let name = match path_file_name(self.sources[self.next].as_str()) {
            Some(n) => n,
            None => String::new(),
        };
        self.file_snapshot(0, name)
    }

    /// A report from inside the next archive, `file_units` of `FILE_UNITS`
    /// along (more counts as all of it), now at `current_file`.
    pub fn file_snapshot(&self, file_units: u64, current_file: String) -> (r: ProgressSnapshot)
        requires
            self.wf(),
            self.next() < self.sources().len(),
        ensures
            r.wf(),
            r.done == extraction_done(self.next(), file_units as nat),
            r.whole == extraction_whole(self.sources().len()),
            r.current_file == current_file,
            r.total_files == self.sources().len(),
            r.current_file_index == self.next() + 1,
            r.operation == Operation::Extracting,
    {
        let units = if file_units <= FILE_UNITS {
            file_units
        } else {
            FILE_UNITS
        };
        let total = self.sources.len();
        proof {
            assert(self.next * FILE_UNITS + FILE_UNITS <= total * FILE_UNITS) by (nonlinear_arith)
                requires
                    self.next < total,
            ;
        }
        ProgressSnapshot {
            done: self.next as u64 * FILE_UNITS + units,
            whole: total as u64 * FILE_UNITS,
            current_file,
            total_files: total,
            current_file_index: self.next + 1,
            operation: Operation::Extracting,
        }
    }

    /// The next archive was extracted into `out_dir`.
    pub fn record_extracted(&mut self, out_dir: String)
        requires
            old(self).wf(),
            old(self).next() < old(self).sources().len(),
        ensures
            final(self).wf(),
            final(self).sources() == old(self).sources(),
            final(self).next() == old(self).next() + 1,
            final(self).extracted_to() == old(self).extracted_to().push(out_dir@),
    {
        let ghost before = self.extracted_to@;
        self.extracted_to.push(out_dir);
        self.next = self.next + 1;
        proof {
            assert(self.extracted_to@.map_values(|s: String| s@) =~= before.map_values(
                |s: String| s@,
            ).push(out_dir@));
        }
    }

    /// The error that ends the batch when the next archive fails.
    pub fn failure(&self, reason: String) -> (r: CommandError)
        requires
            self.wf(),
            self.next() < self.sources().len(),
        ensures
            r == CommandError::DecompressionFailed(self.sources()[self.next() as int], reason),
    {
        CommandError::DecompressionFailed(self.sources[self.next].clone(), reason)
    }

    /// The report made once every archive is extracted.
    pub fn final_snapshot(&self) -> (r: ProgressSnapshot)
        requires
            self.wf(),
            self.next() == self.sources().len(),
        ensures
            r.wf(),
            r.done == r.whole,
            r.current_file@ == "Complete"@,
            r.total_files == self.sources().len(),
            r.current_file_index == self.sources().len(),
            r.operation == Operation::Extracting,
    {
        ProgressSnapshot {
            done: FILE_UNITS,
            whole: FILE_UNITS,
            current_file: String::from_str("Complete"),
            total_files: self.sources.len(),
            current_file_index: self.sources.len(),
            operation: Operation::Extracting,
        }
    }

    /// The text reported once every archive is extracted.
    pub fn success_message(&self) -> (r: String)
        requires
            self.wf(),
            self.next() == self.sources().len(),
        ensures
            r@ == extraction_message(self.extracted_to()),
    {
        if self.extracted_to.len() == 1 {
            let mut r = String::from_str("File decompressed successfully to: ");
            r.append(self.extracted_to[0].as_str());
            r
        } else {
            let mut r = String::from_str("Files decompressed successfully. ");
            let n = decimal_string(self.extracted_to.len());
            r.append(n.as_str());
            r.append(" archives processed.");
            r
        }
    }
}

/// Where a compressed archive goes: an absolute destination as it is, a
/// relative one beside the first source.
pub open spec fn destination_for(sources: Seq<String>, destination: Seq<char>) -> Seq<char> {
    if is_absolute_path(destination) || sources.len() == 0 {
        destination
    } else {
        joined(parent_or_current(sources[0]@), destination)
    }
}

pub fn resolve_destination(sources: &Vec<String>, destination: &str) -> (r: String)
    ensures
        r@ == destination_for(sources@, destination@),
{
    if path_is_absolute(destination) || sources.len() == 0 {
        String::from_str(destination)
    } else {
        let parent = directory_of(sources[0].as_str());
        proof {
            assert(parent@ == parent_or_current(sources@[0]@));
        }
        path_join(parent.as_str(), destination)
    }
}

/// A compression the codec is to carry out.
#[derive(Clone, Debug)]
pub struct CompressionJob {
    pub sources: Vec<String>,
    pub destination: String,
    pub kind: CompressionType,
}

/// Decides whether a compression request goes ahead, and with what. It is
/// refused while other instances of the application run, and for an unknown
/// kind; nothing is written in either case.
pub fn plan_compression(running_instances: usize, sources: Vec<String>, destination: &str, kind: &str) -> (r:
    Result<CompressionJob, CommandError>)
    ensures
        running_instances > 1 ==> r == Err::<CompressionJob, CommandError>(
            CommandError::MultipleInstancesDetected,
        ),
        running_instances <= 1 && kind_of(kind@) is None ==> (r matches Err(
            CommandError::UnsupportedKind(k),
        ) && k@ == kind@),
        running_instances <= 1 && kind_of(kind@) is Some ==> (r matches Ok(job) && job.sources@
            == sources@ && job.destination@ == destination_for(sources@, destination@) && job.kind
            == kind_of(kind@)->0),
{
    if running_instances > 1 {
        return Err(CommandError::MultipleInstancesDetected);
    }
    match parse_compression_type(kind) {
        None => Err(CommandError::UnsupportedKind(String::from_str(kind))),
        Some(k) => {
            let destination = resolve_destination(&sources, destination);
            Ok(CompressionJob { sources, destination, kind: k })
        },
    }
}

/// Whether `kind` may compress `files`: single-file kinds take one file at
/// most. An unknown kind is an error.
pub fn validate_compression_type(files: &Vec<String>, kind: &str) -> (r: Result<bool, CommandError>)
    ensures
        kind_of(kind@) is None ==> (r matches Err(CommandError::UnsupportedKind(k)) && k@ == kind@),
        kind_of(kind@) is Some ==> r == Ok::<bool, CommandError>(
            kind_of(kind@)->0.spec_supports_multiple_files() || files.len() <= 1,
        ),
{
    match parse_compression_type(kind) {
        None => Err(CommandError::UnsupportedKind(String::from_str(kind))),
        Some(k) => Ok(k.supports_multiple_files() || files.len() <= 1),
    }
}

/// A report from the codec while it writes the archive, `units` of
/// `FILE_UNITS` along the whole job (more counts as all of it).
pub fn compression_snapshot(units: u64, current_file: String, total_files: usize) -> (r:
    ProgressSnapshot)
    ensures
        r.wf(),
        r.done == min_units(units as nat),
        r.whole == FILE_UNITS,
        r.current_file == current_file,
        r.total_files == total_files,
        r.current_file_index == 1,
        r.operation == Operation::Compressing,
{
    ProgressSnapshot {
        done: if units <= FILE_UNITS {
            units
        } else {
            FILE_UNITS
        },
        whole: FILE_UNITS,
        current_file,
        total_files,
        current_file_index: 1,
        operation: Operation::Compressing,
    }
}

/// The report made once the archive is written.
pub fn compression_final_snapshot() -> (r: ProgressSnapshot)
    ensures
        r.wf(),
        r.done == r.whole,
        r.current_file@ == "Complete"@,
        r.total_files == 1,
        r.current_file_index == 1,
        r.operation == Operation::Compressing,
{
    ProgressSnapshot {
        done: FILE_UNITS,
        whole: FILE_UNITS,
        current_file: String::from_str("Complete"),
        total_files: 1,
        current_file_index: 1,
        operation: Operation::Compressing,
    }
}

/// The text reported once the archive is written.
pub fn compression_message(job: &CompressionJob) -> (r: String)
    ensures
        r@ == "Files compressed successfully to: "@ + job.destination@,
{
    let mut r = String::from_str("Files compressed successfully to: ");
    r.append(job.destination.as_str());
    r
}

} // verus!
