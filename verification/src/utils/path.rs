//! Paths as text: the final component of a path, its extension, and a file
//! name put inside a directory.
//!
//! The platform's rules for splitting and joining paths are those of
//! `std::path` and are not restated here; they are reached through two
//! trusted functions. What an extension is follows from the final component
//! alone and is proved.

use std::path::Path;
use vstd::prelude::*;
use vstd::string::*;

verus! {

/// The final component of `path` by the rules of `std::path`, where it has
/// one.
pub uninterp spec fn file_name_of(path: Seq<char>) -> Option<Seq<char>>;

/// The path that `std::path` forms by putting `name` inside `directory`.
pub uninterp spec fn joined(directory: Seq<char>, name: Seq<char>) -> Seq<char>;

/// Trusted: `std::path::Path::file_name`, on a path that is text. Its result
/// is the final component that `file_name_of` stands for.
#[verifier::external_body]
pub(crate) fn file_name(path: &str) -> (r: Option<&str>)
    ensures
        r.is_some() == file_name_of(path@).is_some(),
        r matches Some(name) ==> Some(name@) == file_name_of(path@),
{
    Path::new(path).file_name().and_then(|name| name.to_str())
}

/// Trusted: `std::path::Path::join`, on a directory and a name that are
/// text. Its result is the path that `joined` stands for.
#[verifier::external_body]
pub(crate) fn join(directory: &str, name: &str) -> (r: String)
    ensures
        r@ == joined(directory@, name@),
{
    Path::new(directory).join(name).to_string_lossy().into_owned()
}

/// Whether the last `.` of `name` stands at index `at`.
pub open spec fn final_dot(name: Seq<char>, at: int) -> bool {
    &&& 0 <= at < name.len()
    &&& name[at] == '.'
    &&& forall|j: int| at < j < name.len() ==> name[j] != '.'
}

/// The extension of a final component: what follows its last `.`, unless it
/// holds no `.` or its only `.` is its first character.
pub open spec fn extension_of(name: Seq<char>) -> Option<Seq<char>> {
    if exists|at: int| 0 < at && final_dot(name, at) {
        let at = choose|at: int| 0 < at && final_dot(name, at);
        Some(name.subrange(at + 1, name.len() as int))
    } else {
        None
    }
}

/// The extension of the path whose final component is `name`.
pub open spec fn path_extension(name: Option<Seq<char>>) -> Option<Seq<char>> {
    match name {
        Some(name) => extension_of(name),
        None => None,
    }
}

/// Two last dots of one name stand at the same index.
proof fn lemma_final_dot_unique(name: Seq<char>, a: int, b: int)
    requires
        final_dot(name, a),
        final_dot(name, b),
    ensures
        a == b,
{
    if a < b {
        assert(name[b] != '.');
    } else if b < a {
        assert(name[a] != '.');
    }
}

/// Extracts the extension of a final component.
pub fn extension(name: &str) -> (r: Option<&str>)
    ensures
        r.is_some() == extension_of(name@).is_some(),
        r matches Some(ext) ==> Some(ext@) == extension_of(name@),
{
    let n: usize = name.unicode_len();
    let mut i: usize = n;
    while i > 0
        invariant
            n == name@.len(),
            i <= n,
            forall|j: int| i <= j < n ==> name@[j] != '.',
        decreases i,
    {
        i -= 1;
        if name.get_char(i) == '.' {
            assert(final_dot(name@, i as int));
            if i == 0 {
                assert forall|at: int| 0 < at implies !final_dot(name@, at) by {
                    if final_dot(name@, at) {
                        lemma_final_dot_unique(name@, at, 0);
                    }
                }
                return None;
            }
            proof {
                let at = choose|at: int| 0 < at && final_dot(name@, at);
                lemma_final_dot_unique(name@, at, i as int);
            }
            return Some(name.substring_char(i + 1, n));
        }
    }
    None
}

} // verus!
