//! Deriving the staging path from the target path.

use vstd::prelude::*;

verus! {

/// The extension that marks a staging file.
pub const LOCK_EXTENSION: &'static str = "lock";

/// What `std::path::Path::with_extension` makes of `path` and `extension`, both as
/// text, on the platform that the library is built for: the new path, or `None`
/// where the new path has no form as text.
pub uninterp spec fn path_with_extension(path: Seq<char>, extension: Seq<char>) -> Option<Seq<char>>;

/// Whether `c` separates the components of a path on some platform.
spec fn is_separator(c: char) -> bool {
    c == '/' || c == '\\'
}

/// The staging path that belongs to the target path `target`.
pub open spec fn lock_path_of(target: Seq<char>) -> Option<Seq<char>> {
    path_with_extension(target, LOCK_EXTENSION@)
}

/// Calls `std::path::Path::with_extension` on `path` and hands the new path back as
/// text, or `None` where it is not text. Assumed, not proved: that this is the
/// result that [`path_with_extension`] names. The standard library panics on an
/// extension that holds a separator, so such an extension is not admitted.
#[verifier::external_body]
fn with_extension(path: &str, extension: &str) -> (r: Option<String>)
    requires
        forall|i: int| 0 <= i < extension@.len() ==> !is_separator(#[trigger] extension@[i]),
    ensures
        r matches Some(s) ==> path_with_extension(path@, extension@) == Some(s@),
        r is None ==> path_with_extension(path@, extension@) is None,
{
    std::path::Path::new(path).with_extension(extension).into_os_string().into_string().ok()
}

/// Derives the staging path of `target`: the same path with its extension replaced
/// by [`LOCK_EXTENSION`].
pub fn derive_lock_path(target: &str) -> (r: Option<String>)
    ensures
        r matches Some(s) ==> lock_path_of(target@) == Some(s@),
        r is None ==> lock_path_of(target@) is None,
{
    proof {
        reveal_strlit("lock");
    }
    with_extension(target, LOCK_EXTENSION)
}

} // verus!
