use vstd::prelude::*;

verus! {

/// The kinds of failure that the decoding side of the tool reports.
#[derive(Clone, Copy, Debug, Eq, Hash, PartialEq, Structural)]
pub enum ErrorKind {
    FileNotFound,
    InvalidFile,
    ReadOrWrite,
    PermissionDenied,
    Unknown,
}

/// The message that goes with each kind.
pub open spec fn kind_message(kind: ErrorKind) -> Seq<char> {
    match kind {
        ErrorKind::FileNotFound => "No such file"@,
        ErrorKind::InvalidFile => "Invalid file"@,
        ErrorKind::ReadOrWrite => "Operate file error"@,
        ErrorKind::PermissionDenied => "Permission denied"@,
        ErrorKind::Unknown => "Unknown error"@,
    }
}

/// An error value: a kind, and the message that the kind determines.
#[derive(Debug)]
pub struct Error {
    kind: ErrorKind,
}

impl Error {
    pub closed spec fn spec_kind(&self) -> ErrorKind {
        self.kind
    }

    pub fn new(kind: ErrorKind) -> (r: Error)
        ensures
            r.spec_kind() == kind,
    {
        Error { kind }
    }

    pub fn kind(&self) -> (r: ErrorKind)
        ensures
            r == self.spec_kind(),
    {
        self.kind
    }

    pub fn msg(&self) -> (r: &'static str)
        ensures
            r@ == kind_message(self.spec_kind()),
    {
        match self.kind() {
            ErrorKind::FileNotFound => "No such file",
            ErrorKind::InvalidFile => "Invalid file",
            ErrorKind::ReadOrWrite => "Operate file error",
            ErrorKind::PermissionDenied => "Permission denied",
            ErrorKind::Unknown => "Unknown error",
        }
    }
}

impl From<ErrorKind> for Error {
    fn from(kind: ErrorKind) -> (r: Error) {
        Error { kind }
    }
}

impl vstd::std_specs::convert::FromSpecImpl<ErrorKind> for Error {
    open spec fn obeys_from_spec() -> bool {
        true
    }

    closed spec fn from_spec(kind: ErrorKind) -> Error {
        Error { kind }
    }
}

/// An error made from a kind has that kind, as one made by `Error::new` does.
pub proof fn from_keeps_kind(kind: ErrorKind)
    ensures
        <Error as vstd::std_specs::convert::FromSpec<ErrorKind>>::obeys_from_spec(),
        <Error as vstd::std_specs::convert::FromSpec<ErrorKind>>::from_spec(kind).spec_kind()
            == kind,
{
}

} // verus!
