use vstd::prelude::*;

verus! {

/// Why a run, the discovery task or a conversion stopped.
#[derive(Clone, Copy, Debug, PartialEq, Eq, Structural)]
pub enum Failure {
    /// A path could not be resolved, opened, or split into its parts.
    Path,
    /// The input container or the decoded payload is of no known format.
    Format,
    /// There is nothing to convert.
    NoFile,
    /// A file's metadata could not be read or accounted for.
    Metadata,
    /// The worker count is outside the accepted range.
    Worker,
    /// A file pattern could not be expanded.
    Pattern,
    /// The decoder rejected the container.
    Decode,
    /// An input could not be read, or an output written.
    Io,
}

pub open spec fn failure_message(f: Failure) -> Seq<char> {
    match f {
        Failure::Path => "Can't resolve the path"@,
        Failure::Format => "Invalid file format"@,
        Failure::NoFile => "No file can be converted"@,
        Failure::Metadata => "Can't get file's metadata"@,
        Failure::Worker => "Worker can't less than 0 and more than 8"@,
        Failure::Pattern => "Invalid file pattern"@,
        Failure::Decode => "Can't decode the file"@,
        Failure::Io => "Can't read or write the file"@,
    }
}

impl Failure {
    /// The message shown to the user.
    pub fn message(&self) -> (r: &'static str)
        ensures
            r@ == failure_message(*self),
    {
        match self {
            Failure::Path => "Can't resolve the path",
            Failure::Format => "Invalid file format",
            Failure::NoFile => "No file can be converted",
            Failure::Metadata => "Can't get file's metadata",
            Failure::Worker => "Worker can't less than 0 and more than 8",
            Failure::Pattern => "Invalid file pattern",
            Failure::Decode => "Can't decode the file",
            Failure::Io => "Can't read or write the file",
        }
    }
}

} // verus!
