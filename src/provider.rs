use vstd::prelude::*;
use crate::failure::Failure;
use crate::format::{classify, format_of_header, Format};
use crate::paths::{file_name_of, name_of};

verus! {

/// Read-only facts about one input: its name, path, container format and
/// size in bytes.
pub trait DataProvider {
    spec fn spec_name(&self) -> Seq<char>;

    spec fn spec_path(&self) -> Seq<char>;

    spec fn spec_format(&self) -> Format;

    spec fn spec_size(&self) -> u64;

    fn get_name(&self) -> (r: String)
        ensures
            r@ == self.spec_name(),
    ;

    fn get_path(&self) -> (r: String)
        ensures
            r@ == self.spec_path(),
    ;

    fn get_format(&self) -> (r: Format)
        ensures
            r == self.spec_format(),
    ;

    fn get_size(&self) -> (r: u64)
        ensures
            r == self.spec_size(),
    ;
}

/// An input file on disk, described from its path, its leading bytes and
/// its size.
pub struct FileProvider {
    path: String,
    name: String,
    format: Format,
    size: u64,
}

impl DataProvider for FileProvider {
    closed spec fn spec_name(&self) -> Seq<char> {
        self.name@
    }

    closed spec fn spec_path(&self) -> Seq<char> {
        self.path@
    }

    closed spec fn spec_format(&self) -> Format {
        self.format
    }

    closed spec fn spec_size(&self) -> u64 {
        self.size
    }

    fn get_name(&self) -> (r: String) {
        self.name.clone()
    }

    fn get_path(&self) -> (r: String) {
        self.path.clone()
    }

    fn get_format(&self) -> (r: Format) {
        self.format
    }

    fn get_size(&self) -> (r: u64) {
        self.size
    }
}

impl FileProvider {
    /// Describes the file at `path`, whose first bytes are `head` and whose
    /// size is `size`. Fails with a path failure where the path has no
    /// file name; a file of no known format is described all the same.
    pub fn new(path: String, head: &[u8], size: u64) -> (r: Result<FileProvider, Failure>)
        ensures
            r is Err <==> file_name_of(path@) is None,
            r is Err ==> r->Err_0 == Failure::Path,
            r is Ok ==> {
                let p = r->Ok_0;
                &&& Some(p.spec_name()) == file_name_of(path@)
                &&& p.spec_path() == path@
                &&& p.spec_format() == format_of_header(head@)
                &&& p.spec_size() == size
            },
    {
        let format = classify(head);
        let name = match name_of(path.as_str()) {
            Ok(n) => n,
            Err(f) => {
                return Err(f);
            },
        };
        Ok(FileProvider { path, name, format, size })
    }
}

} // verus!
