//! Path arithmetic, delegated to the standard library's path grammar.
//!
//! Paths are carried as text. The three operations below are those of
//! `std::path::Path` on the target platform; their results are named rather
//! than spelled out, so that contracts elsewhere can refer to them exactly.

use vstd::prelude::*;

verus! {

/// Whether `path` begins with `base`, compared component by component, as
/// `Path::starts_with` decides it.
pub uninterp spec fn path_has_prefix(path: Seq<char>, base: Seq<char>) -> bool;

/// The path made of `base` followed by `tail`, as `Path::join` builds it.
pub uninterp spec fn path_joined(base: Seq<char>, tail: Seq<char>) -> Seq<char>;

/// The path without its final component, as `Path::parent` gives it, or
/// `None` where the path ends in a root or is empty.
pub uninterp spec fn path_parent(path: Seq<char>) -> Option<Seq<char>>;

/// The view of an optional string.
pub open spec fn text_of(s: Option<String>) -> Option<Seq<char>> {
    match s {
        Some(t) => Some(t@),
        None => None,
    }
}

/// Trusted: calls `std::path::Path::starts_with` on the two texts. The
/// contract only names the answer; it claims nothing beyond the call being a
/// function of the two paths.
#[verifier::external_body]
pub(crate) fn has_prefix(path: &str, base: &str) -> (r: bool)
    ensures
        r == path_has_prefix(path@, base@),
{
    std::path::Path::new(path).starts_with(std::path::Path::new(base))
}

/// Trusted: calls `std::path::Path::join` on the two texts. Both inputs are
/// valid UTF-8, hence so is the joined path, and the conversion back to text
/// loses nothing. The contract only names the result.
#[verifier::external_body]
pub(crate) fn joined(base: &str, tail: &str) -> (r: String)
    ensures
        r@ == path_joined(base@, tail@),
{
    std::path::Path::new(base).join(tail).to_string_lossy().into_owned()
}

/// Trusted: calls `std::path::Path::parent` on the text. The contract only
/// names the result.
#[verifier::external_body]
pub(crate) fn parent(path: &str) -> (r: Option<String>)
    ensures
        text_of(r) == path_parent(path@),
{
    std::path::Path::new(path).parent().map(|p| p.to_string_lossy().into_owned())
}

} // verus!
