use vstd::prelude::*;
use crate::failure::Failure;
use crate::format::Ext;

verus! {

/// The last component of a path, where there is one and it is valid text.
pub uninterp spec fn file_name_of(path: Seq<char>) -> Option<Seq<char>>;

/// The path without its last component, where there is one.
pub uninterp spec fn parent_of(path: Seq<char>) -> Option<Seq<char>>;

/// The last component of a path without its extension, where there is one
/// and it is valid text.
pub uninterp spec fn stem_of(path: Seq<char>) -> Option<Seq<char>>;

pub open spec fn opt_text(o: Option<String>) -> Option<Seq<char>> {
    match o {
        Some(s) => Some(s@),
        None => None,
    }
}

/// Relies on std::path::Path::file_name, then OsStr::to_str.
#[verifier::external_body]
fn file_name(path: &str) -> (r: Option<String>)
    ensures
        opt_text(r) == file_name_of(path@),
{
    match std::path::Path::new(path).file_name() {
        Some(n) => n.to_str().map(String::from),
        None => None,
    }
}

/// Relies on std::path::Path::parent: it is missing only for an empty path
/// or one that ends in a root or prefix, so a path with a file name has one,
/// and a part of valid text is valid text.
#[verifier::external_body]
fn parent(path: &str) -> (r: Option<String>)
    ensures
        opt_text(r) == parent_of(path@),
        file_name_of(path@) is Some ==> r is Some,
{
    match std::path::Path::new(path).parent() {
        Some(p) => p.to_str().map(String::from),
        None => None,
    }
}

/// Relies on std::path::Path::file_stem, then OsStr::to_str: the stem is
/// missing exactly where the file name is, and a part of valid text is
/// valid text.
#[verifier::external_body]
fn file_stem(path: &str) -> (r: Option<String>)
    ensures
        opt_text(r) == stem_of(path@),
        (r is Some) == (file_name_of(path@) is Some),
{
    match std::path::Path::new(path).file_stem() {
        Some(n) => n.to_str().map(String::from),
        None => None,
    }
}

/// The name of the file at `path`, or a path failure.
pub fn name_of(path: &str) -> (r: Result<String, Failure>)
    ensures
        match file_name_of(path@) {
            Some(n) => r is Ok && r->Ok_0@ == n,
            None => r == Err::<String, Failure>(Failure::Path),
        },
{
    match file_name(path) {
        Some(n) => Ok(n),
        None => Err(Failure::Path),
    }
}

/// Where a converted file is written: a directory, and a file name made of
/// a stem and an extension.
pub struct OutputTarget {
    pub dir: String,
    pub stem: String,
    pub ext: Ext,
}

/// The directory is the override where there is one, else the input's
/// parent; the stem is the input's. Either one missing is a path failure.
pub open spec fn target_from(
    output: Option<Seq<char>>,
    parent: Option<Seq<char>>,
    stem: Option<Seq<char>>,
    ext: Ext,
) -> Result<(Seq<char>, Seq<char>, Ext), Failure> {
    let dir = match output {
        Some(o) => Some(o),
        None => parent,
    };
    match (dir, stem) {
        (Some(d), Some(s)) => Ok((d, s, ext)),
        _ => Err(Failure::Path),
    }
}

pub open spec fn target_of(path: Seq<char>, output: Option<Seq<char>>, ext: Ext) -> Result<
    (Seq<char>, Seq<char>, Ext),
    Failure,
> {
    target_from(output, parent_of(path), stem_of(path), ext)
}

pub open spec fn target_view(r: Result<OutputTarget, Failure>) -> Result<
    (Seq<char>, Seq<char>, Ext),
    Failure,
> {
    match r {
        Ok(t) => Ok((t.dir@, t.stem@, t.ext)),
        Err(f) => Err(f),
    }
}

/// Builds the output target from the parts of the input path.
pub fn choose_target(
    output: &Option<String>,
    parent: Option<String>,
    stem: Option<String>,
    ext: Ext,
) -> (r: Result<OutputTarget, Failure>)
    ensures
        target_view(r) == target_from(opt_text(*output), opt_text(parent), opt_text(stem), ext),
{
    let dir = match output {
        Some(o) => o.clone(),
        None => match parent {
            Some(p) => p,
            None => {
                return Err(Failure::Path);
            },
        },
    };
    match stem {
        Some(s) => Ok(OutputTarget { dir, stem: s, ext }),
        None => Err(Failure::Path),
    }
}

/// The output target of the input file at `path`; a path with a file name
/// always has one.
pub fn output_target(path: &str, output: &Option<String>, ext: Ext) -> (r: Result<
    OutputTarget,
    Failure,
>)
    ensures
        target_view(r) == target_of(path@, opt_text(*output), ext),
        file_name_of(path@) is Some ==> r is Ok,
{
    let parent = match output {
        Some(_) => None,
        None => parent(path),
    };
    let stem = file_stem(path);
    choose_target(output, parent, stem, ext)
}

} // verus!
