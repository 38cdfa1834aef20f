use vstd::prelude::*;
use crate::decode::{conversion_of, decoding_of, get_data};
use crate::failure::Failure;
use crate::format::{ext_of, format_of_header, output_extension, Ext, Format};
use crate::paths::{file_name_of, opt_text, output_target, stem_of, target_of, OutputTarget};
use crate::progress::Progress;
use crate::provider::{DataProvider, FileProvider};

verus! {

/// The fewest and the most workers a run may have.
pub const MIN_WORKERS: usize = 1;

pub const MAX_WORKERS: usize = 8;

/// The parameters of a run.
pub struct Command {
    /// The file patterns to expand, in order.
    pub matchers: Vec<String>,
    /// The directory that all outputs go to, in place of each input's own.
    pub output: Option<String>,
    /// Whether each file gets a counter of its own.
    pub verbose: bool,
    /// How many conversions run at once.
    pub worker: usize,
}

pub open spec fn worker_in_range(worker: usize) -> bool {
    MIN_WORKERS <= worker <= MAX_WORKERS
}

/// Checks a run's parameters before anything is touched: the worker
/// count first, then that there is at least one pattern. Gives the worker
/// count to start.
pub fn validate(command: &Command) -> (r: Result<usize, Failure>)
    ensures
        !worker_in_range(command.worker) ==> r == Err::<usize, Failure>(Failure::Worker),
        worker_in_range(command.worker) && command.matchers@.len() == 0 ==> r == Err::<
            usize,
            Failure,
        >(Failure::NoFile),
        worker_in_range(command.worker) && command.matchers@.len() > 0 ==> r == Ok::<
            usize,
            Failure,
        >(command.worker),
{
    if command.worker < MIN_WORKERS || command.worker > MAX_WORKERS {
        return Err(Failure::Worker);
    }
    if command.matchers.len() == 0 {
        return Err(Failure::NoFile);
    }
    Ok(command.worker)
}

/// What discovery learned of one entry of a pattern's expansion.
pub enum Probe {
    /// The pattern itself could not be expanded.
    BadPattern,
    /// The expansion reported an entry it could not read.
    BadEntry,
    /// The entry is not a regular file.
    NotAFile,
    /// The file could not be opened, or its metadata read.
    Unreadable,
    /// The file was opened: its path, its leading bytes and its size.
    Found { path: String, head: Vec<u8>, size: u64 },
}

/// What discovery does with an entry.
pub enum Step {
    /// Pass over it.
    Skip,
    /// Hand the described file to the workers.
    Enqueue(FileProvider),
    /// Stop discovery with this failure.
    Abort(Failure),
}

/// One step of discovery. A described file is counted into the expected
/// total before it is handed on; any failure stops discovery and leaves
/// the counters as they were.
pub fn discover(progress: &mut Progress, probe: Probe) -> (r: Step)
    requires
        old(progress).wf(),
    ensures
        final(progress).wf(),
        final(progress).processed() == old(progress).processed(),
        !(r is Enqueue) ==> final(progress).discovered() == old(progress).discovered(),
        match probe {
            Probe::BadPattern => r is Abort && r->Abort_0 == Failure::Pattern,
            Probe::BadEntry => r is Abort && r->Abort_0 == Failure::Path,
            Probe::NotAFile => r is Skip,
            Probe::Unreadable => r is Abort && r->Abort_0 == Failure::Path,
            Probe::Found { path, head, size } => match file_name_of(path@) {
                None => r is Abort && r->Abort_0 == Failure::Path,
                Some(name) => if old(progress).spec_total_length() + size <= u64::MAX
                    && old(progress).spec_files() < u64::MAX {
                    &&& r is Enqueue
                    &&& r->Enqueue_0.spec_name() == name
                    &&& r->Enqueue_0.spec_path() == path@
                    &&& r->Enqueue_0.spec_format() == format_of_header(head@)
                    &&& r->Enqueue_0.spec_size() == size
                    &&& final(progress).discovered() == old(progress).discovered().push(size)
                } else {
                    r is Abort && r->Abort_0 == Failure::Metadata
                },
            },
        },
{
    match probe {
        Probe::BadPattern => Step::Abort(Failure::Pattern),
        Probe::BadEntry => Step::Abort(Failure::Path),
        Probe::NotAFile => Step::Skip,
        Probe::Unreadable => Step::Abort(Failure::Path),
        Probe::Found { path, head, size } => {
            let provider = match FileProvider::new(path, head.as_slice(), size) {
                Ok(p) => p,
                Err(f) => {
                    return Step::Abort(f);
                },
            };
            if progress.extend_total(provider.get_size()) {
                Step::Enqueue(provider)
            } else {
                Step::Abort(Failure::Metadata)
            }
        },
    }
}

/// A finished conversion: where it goes and what is written there.
pub struct Conversion {
    pub target: OutputTarget,
    pub data: Vec<u8>,
}

/// Where a decoded payload `data` of the input at `path` goes: the output
/// directory, stem and extension, and the payload; or the first failure.
pub open spec fn settle_of(path: Seq<char>, data: Seq<u8>, output: Option<Seq<char>>) -> Result<
    (Seq<char>, Seq<char>, Ext, Seq<u8>),
    Failure,
> {
    match ext_of(data) {
        None => Err(Failure::Format),
        Some(ext) => match target_of(path, output, ext) {
            Err(f) => Err(f),
            Ok((dir, stem, e)) => Ok((dir, stem, e, data)),
        },
    }
}

/// What converting the container `input`, found at `path` and of the given
/// format, yields: the output directory, stem and extension, and the
/// payload; or the first failure.
pub open spec fn dump_of(
    format: Format,
    path: Seq<char>,
    input: Seq<u8>,
    output: Option<Seq<char>>,
) -> Result<(Seq<char>, Seq<char>, Ext, Seq<u8>), Failure> {
    match decoding_of(format, input) {
        Err(f) => Err(f),
        Ok(data) => settle_of(path, data, output),
    }
}

pub open spec fn conversion_view(r: Result<Conversion, Failure>) -> Result<
    (Seq<char>, Seq<char>, Ext, Seq<u8>),
    Failure,
> {
    match r {
        Ok(c) => Ok((c.target.dir@, c.target.stem@, c.target.ext, c.data@)),
        Err(f) => Err(f),
    }
}

/// Places a decoded payload: picks its extension from its leading bytes
/// and the output's directory and stem from the input. A payload with a
/// known signature, of an input with a file name, always has a place.
pub fn settle<P: DataProvider>(provider: &P, data: Vec<u8>, output: &Option<String>) -> (r: Result<
    Conversion,
    Failure,
>)
    ensures
        conversion_view(r) == settle_of(provider.spec_path(), data@, opt_text(*output)),
        file_name_of(provider.spec_path()) is Some && ext_of(data@) is Some ==> r is Ok,
{
    let ext = match output_extension(data.as_slice()) {
        Ok(e) => e,
        Err(f) => {
            return Err(f);
        },
    };
    let path = provider.get_path();
    match output_target(path.as_str(), output, ext) {
        Ok(target) => Ok(Conversion { target, data }),
        Err(f) => Err(f),
    }
}

/// Whether the produced-bytes counter can take the payload of `input`:
/// always where decoding fails, since nothing is then counted.
pub open spec fn payload_fits(progress: Progress, format: Format, input: Seq<u8>) -> bool {
    match decoding_of(format, input) {
        Ok(d) => progress.spec_total_processed() + d.len() <= u64::MAX,
        Err(_) => true,
    }
}

/// Converts one input whose bytes are `input`: decodes it, counts the
/// payload into the produced total, then picks the extension from the
/// payload's leading bytes and places the output. The payload is counted
/// before its signature is checked, so a payload of no known kind is
/// counted too. An input with a file name whose payload decodes and has a
/// known signature always converts.
pub fn dump<P: DataProvider>(
    provider: &P,
    input: &Vec<u8>,
    output: &Option<String>,
    progress: &mut Progress,
) -> (r: Result<Conversion, Failure>)
    requires
        old(progress).wf(),
    ensures
        final(progress).wf(),
        final(progress).discovered() == old(progress).discovered(),
        match decoding_of(provider.spec_format(), input@) {
            Ok(d) => if payload_fits(*old(progress), provider.spec_format(), input@) {
                final(progress).processed() == old(progress).processed().push(d.len() as u64)
            } else {
                final(progress).processed() == old(progress).processed()
            },
            Err(_) => final(progress).processed() == old(progress).processed(),
        },
        payload_fits(*old(progress), provider.spec_format(), input@) ==> conversion_view(r)
            == dump_of(provider.spec_format(), provider.spec_path(), input@, opt_text(*output)),
        !payload_fits(*old(progress), provider.spec_format(), input@) ==> r is Err && r->Err_0
            == Failure::Metadata,
        file_name_of(provider.spec_path()) is Some && conversion_of(
            provider.spec_format(),
            input@,
        ) is Ok && payload_fits(*old(progress), provider.spec_format(), input@) ==> r is Ok,
{
    let data = match get_data(provider.get_format(), input) {
        Ok(d) => d,
        Err(f) => {
            return Err(f);
        },
    };
    if !progress.advance_total(data.len() as u64) {
        return Err(Failure::Metadata);
    }
    settle(provider, data, output)
}

/// Where every input converts, the stems of the outputs are exactly the
/// stems of the inputs: each output keeps the stem of the input it came
/// from, and every input gives one.
pub proof fn outputs_keep_stems(
    formats: Seq<Format>,
    paths: Seq<Seq<char>>,
    inputs: Seq<Seq<u8>>,
    output: Option<Seq<char>>,
)
    requires
        formats.len() == paths.len(),
        inputs.len() == paths.len(),
        forall|i: int| 0 <= i < paths.len() ==> (#[trigger] dump_of(formats[i], paths[i], inputs[i], output)) is Ok,
    ensures
        forall|i: int|
            0 <= i < paths.len() ==> stem_of(paths[i]) == Some(
                (#[trigger] dump_of(formats[i], paths[i], inputs[i], output))->Ok_0.1,
            ),
        Set::new(|s: Seq<char>| exists|i: int| 0 <= i < paths.len() && dump_of(formats[i], paths[i], inputs[i], output)->Ok_0.1 == s)
            == Set::new(|s: Seq<char>| exists|i: int| 0 <= i < paths.len() && #[trigger] stem_of(paths[i]) == Some(s)),
{
    assert forall|i: int| 0 <= i < paths.len() implies stem_of(paths[i]) == Some(
        (#[trigger] dump_of(formats[i], paths[i], inputs[i], output))->Ok_0.1,
    ) by {
        let d = dump_of(formats[i], paths[i], inputs[i], output);
        assert(d is Ok);
    }
    let a = Set::new(|s: Seq<char>| exists|i: int| 0 <= i < paths.len() && dump_of(formats[i], paths[i], inputs[i], output)->Ok_0.1 == s);
    let b = Set::new(|s: Seq<char>| exists|i: int| 0 <= i < paths.len() && #[trigger] stem_of(paths[i]) == Some(s));
    assert forall|s: Seq<char>| a.contains(s) <==> b.contains(s) by {
        if a.contains(s) {
            let i = choose|i: int| 0 <= i < paths.len() && dump_of(formats[i], paths[i], inputs[i], output)->Ok_0.1 == s;
            assert(stem_of(paths[i]) == Some(s));
        }
        if b.contains(s) {
            let i = choose|i: int| 0 <= i < paths.len() && #[trigger] stem_of(paths[i]) == Some(s);
            assert(dump_of(formats[i], paths[i], inputs[i], output) is Ok);
        }
    }
    assert(a =~= b);
}

/// A run in which no task failed and nothing was found ends with a
/// "no file" failure; one in which no task failed and something was found
/// succeeds.
pub proof fn empty_run_fails(files: u64, outcomes: Seq<Result<(), Failure>>)
    requires
        first_failure_of(outcomes) is None,
    ensures
        files == 0 ==> run_result(files, outcomes) == Err::<(), Failure>(Failure::NoFile),
        files > 0 ==> run_result(files, outcomes) == Ok::<(), Failure>(()),
{
}

/// The first failure among task outcomes, in the order given.
pub open spec fn first_failure_of(s: Seq<Result<(), Failure>>) -> Option<Failure>
    decreases s.len(),
{
    if s.len() == 0 {
        None
    } else {
        match s[0] {
            Err(f) => Some(f),
            Ok(_) => first_failure_of(s.skip(1)),
        }
    }
}

/// Finds the first failure among task outcomes, in the order given.
pub fn first_failure(outcomes: &Vec<Result<(), Failure>>) -> (r: Option<Failure>)
    ensures
        r == first_failure_of(outcomes@),
{
    let mut i: usize = 0;
    assert(outcomes@.skip(0) =~= outcomes@);
    while i < outcomes.len()
        invariant
            i <= outcomes@.len(),
            first_failure_of(outcomes@) == first_failure_of(outcomes@.skip(i as int)),
        decreases outcomes@.len() - i,
    {
        let rest = Ghost(outcomes@.skip(i as int));
        assert(rest@.skip(1) =~= outcomes@.skip(i + 1));
        match &outcomes[i] {
            Err(f) => {
                return Some(*f);
            },
            Ok(_) => {},
        }
        i = i + 1;
    }
    assert(outcomes@.skip(i as int).len() == 0);
    None
}

/// How a run ends, once every task has been joined in spawn order: the
/// first failure met, else a "no file" failure where nothing was found,
/// else success.
pub open spec fn run_result(files: u64, outcomes: Seq<Result<(), Failure>>) -> Result<(), Failure> {
    match first_failure_of(outcomes) {
        Some(f) => Err(f),
        None => if files == 0 {
            Err(Failure::NoFile)
        } else {
            Ok(())
        },
    }
}

/// Ends a run from the outcomes of its tasks, in spawn order.
pub fn finish(progress: &Progress, outcomes: &Vec<Result<(), Failure>>) -> (r: Result<(), Failure>)
    ensures
        r == run_result(progress.spec_files(), outcomes@),
{
    match first_failure(outcomes) {
        Some(f) => Err(f),
        None => if progress.files() == 0 {
            Err(Failure::NoFile)
        } else {
            Ok(())
        },
    }
}

} // verus!
