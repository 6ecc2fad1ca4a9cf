//! Helpers for file paths and for words that follow a count.
//!
//! Paths are worked on by `std::path::PathBuf`, which knows the rules of the
//! platform. What it returns is named here, not spelled out.

use vstd::prelude::*;

verus! {

/// The path that `PathBuf::set_extension` makes of `path`, given as text,
/// when it is called with `extension`.
pub uninterp spec fn path_with_extension(path: Seq<char>, extension: Seq<char>) -> Seq<char>;

/// The path that `PathBuf::set_file_name` makes of `path`, given as text,
/// when it is called with `file_name`.
pub uninterp spec fn path_with_file_name(path: Seq<char>, file_name: Seq<char>) -> Seq<char>;

/// What `Path::file_name` returns for `path`, given as text: its last
/// component, if that is the name of a file or directory.
pub uninterp spec fn path_file_name(path: Seq<char>) -> Option<Seq<char>>;

/// Whether `c` parts the components of a path on some platform.
pub open spec fn is_separator(c: char) -> bool {
    c == '/' || c == '\\'
}

/// Whether `text` holds no character that parts the components of a path.
pub open spec fn no_separator(text: Seq<char>) -> bool {
    forall|i: int| 0 <= i < text.len() ==> !is_separator(#[trigger] text[i])
}

/// The path `path` with its extension changed to `extension`.
///
/// Calls `PathBuf::set_extension` of std on a copy of `path`, and returns the
/// path that results. That function panics on an extension that holds a path
/// separator, so such an extension is not accepted.
#[verifier::external_body]
pub fn set_extension(path: &str, extension: &str) -> (r: String)
    requires
        no_separator(extension@),
    ensures
        r@ == path_with_extension(path@, extension@),
{
    let mut changed = std::path::PathBuf::from(path);
    changed.set_extension(extension);
    changed.to_string_lossy().into_owned()
}

/// The path `path` with its last component changed to `file_name`.
///
/// Calls `PathBuf::set_file_name` of std on a copy of `path`, and returns the
/// path that results.
#[verifier::external_body]
pub(crate) fn set_file_name(path: &str, file_name: &str) -> (r: String)
    ensures
        r@ == path_with_file_name(path@, file_name@),
{
    let mut changed = std::path::PathBuf::from(path);
    changed.set_file_name(file_name);
    changed.to_string_lossy().into_owned()
}

/// The last component of `path`, if it is the name of a file or directory.
///
/// Calls `Path::file_name` of std.
#[verifier::external_body]
pub(crate) fn file_name(path: &str) -> (r: Option<String>)
    ensures
        r is Some <==> path_file_name(path@) is Some,
        r is Some ==> r->Some_0@ == path_file_name(path@)->Some_0,
{
    match std::path::Path::new(path).file_name() {
        Some(name) => Some(name.to_string_lossy().into_owned()),
        None => None,
    }
}

/// `s` as it stands after a count: unchanged after a count of one, and with
/// an `s` at its end after any other.
pub fn pluralize(s: &str, count: usize) -> (r: String)
    ensures
        r@ == if count == 1 {
            s@
        } else {
            s@ + "s"@
        },
{
    if count == 1 {
        s.to_owned()
    } else {
        let mut plural = String::from_str(s);
        plural.append("s");
        plural
    }
}

} // verus!
