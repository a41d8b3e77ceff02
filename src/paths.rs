//! The output path that a watched file gets when none is configured:
//! `<parent>/<stem>.min.<extension>` of its source path.
use vstd::prelude::*;

verus! {

/// What `Path::parent` gives for a path with this text.
pub uninterp spec fn path_parent(p: Seq<char>) -> Option<Seq<char>>;

/// What `Path::file_stem` gives for a path with this text.
pub uninterp spec fn path_stem(p: Seq<char>) -> Option<Seq<char>>;

/// What `Path::extension` gives for a path with this text.
pub uninterp spec fn path_extension(p: Seq<char>) -> Option<Seq<char>>;

/// Relies on `std::path::Path::parent`: the parent directory of a path,
/// if it has one, depends on its text alone. A parent of a path made from a
/// `str` is itself valid text, so `to_str` does not fail on it.
#[verifier::external_body]
fn parent_of(path: &str) -> (r: Option<String>)
    ensures
        match r {
            Some(x) => path_parent(path@) == Some(x@),
            None => path_parent(path@) is None,
        },
{
    std::path::Path::new(path).parent().and_then(std::path::Path::to_str).map(str::to_owned)
}

/// Relies on `std::path::Path::file_stem`: the file name without its
/// extension, if there is a file name, depends on the path's text alone.
#[verifier::external_body]
fn stem_of(path: &str) -> (r: Option<String>)
    ensures
        match r {
            Some(x) => path_stem(path@) == Some(x@),
            None => path_stem(path@) is None,
        },
{
    std::path::Path::new(path).file_stem().and_then(|s| s.to_str()).map(str::to_owned)
}

/// Relies on `std::path::Path::extension`: the extension of the file name,
/// if there is one, depends on the path's text alone.
#[verifier::external_body]
fn extension_of(path: &str) -> (r: Option<String>)
    ensures
        match r {
            Some(x) => path_extension(path@) == Some(x@),
            None => path_extension(path@) is None,
        },
{
    std::path::Path::new(path).extension().and_then(|s| s.to_str()).map(str::to_owned)
}

/// The derived output path for a file with this parent directory, stem and
/// extension: `<stem>.min.<extension>`, after `<parent>/` unless the parent
/// is empty.
pub open spec fn min_path(parent: Seq<char>, stem: Seq<char>, ext: Seq<char>) -> Seq<char> {
    let dir = if parent.len() == 0 {
        parent
    } else {
        parent + seq!['/']
    };
    dir + stem + seq!['.', 'm', 'i', 'n', '.'] + ext
}

/// The part of a source path that an output path cannot be derived without.
#[derive(Clone, Copy, Debug, PartialEq, Eq, Structural)]
pub enum PathPart {
    Parent,
    FileStem,
    Extension,
}

impl PathPart {
    /// The name of the part in messages: `parent`, `file stem` or
    /// `extension`.
    pub fn name(&self) -> (r: &'static str)
        ensures
            r@ == part_name(*self),
    {
        proof {
            reveal_strlit("parent");
            reveal_strlit("file stem");
            reveal_strlit("extension");
        }
        match self {
            PathPart::Parent => "parent",
            PathPart::FileStem => "file stem",
            PathPart::Extension => "extension",
        }
    }
}

pub open spec fn part_name(p: PathPart) -> Seq<char> {
    match p {
        PathPart::Parent => seq!['p', 'a', 'r', 'e', 'n', 't'],
        PathPart::FileStem => seq!['f', 'i', 'l', 'e', ' ', 's', 't', 'e', 'm'],
        PathPart::Extension => seq!['e', 'x', 't', 'e', 'n', 's', 'i', 'o', 'n'],
    }
}

/// The output path derived from the source path `p`, or the part that `p`
/// lacks: a parent, a file stem or an extension, looked for in that order.
pub open spec fn derived_path(p: Seq<char>) -> Result<Seq<char>, PathPart> {
    match (path_parent(p), path_stem(p), path_extension(p)) {
        (Some(d), Some(s), Some(e)) => Ok(min_path(d, s, e)),
        (None, _, _) => Err(PathPart::Parent),
        (Some(_), None, _) => Err(PathPart::FileStem),
        (Some(_), Some(_), None) => Err(PathPart::Extension),
    }
}

/// The output path derived from the source path `path`, or the part that
/// the path lacks.
pub fn derived_output_path(path: &str) -> (r: Result<String, PathPart>)
    ensures
        match r {
            Ok(s) => derived_path(path@) == Ok::<Seq<char>, PathPart>(s@),
            Err(part) => derived_path(path@) == Err::<Seq<char>, PathPart>(part),
        },
{
    let parent = match parent_of(path) {
        Some(p) => p,
        None => return Err(PathPart::Parent),
    };
    let stem = match stem_of(path) {
        Some(s) => s,
        None => return Err(PathPart::FileStem),
    };
    let ext = match extension_of(path) {
        Some(e) => e,
        None => return Err(PathPart::Extension),
    };
    Ok(min_output_path(parent.as_str(), stem.as_str(), ext.as_str()))
}

/// The output path for a file with this parent directory, stem and
/// extension: `<stem>.min.<extension>`, after `<parent>/` unless the parent
/// is empty.
pub fn min_output_path(parent: &str, stem: &str, ext: &str) -> (r: String)
    ensures
        r@ == min_path(parent@, stem@, ext@),
{
    proof {
        reveal_strlit("/");
        reveal_strlit(".min.");
    }
    let mut out = String::new();
    if parent.unicode_len() > 0 {
        out.append(parent);
        out.append("/");
    }
    out.append(stem);
    out.append(".min.");
    out.append(ext);
    assert(out@ =~= min_path(parent@, stem@, ext@));
    out
}

} // verus!
