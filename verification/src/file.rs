//! The decision at the heart of file enumeration: whether a directory or
//! file path is excluded by the configured ignore list.  The walk over the
//! file system itself lives with the caller; this is the rule it applies
//! to every entry, directories and files alike.
use vstd::prelude::*;
use crate::strutil::{contains_sub, has_substring};

verus! {

/// A path is ignored exactly when it contains one of the ignore strings as
/// a plain substring.
pub open spec fn ignored_path(path: Seq<char>, ignore: Seq<Seq<char>>) -> bool {
    exists|i: int| 0 <= i < ignore.len() && has_substring(path, ignore[i])
}

/// Whether `path` contains any of the `ignore` substrings, and so is
/// excluded from both traversal into its children and leaf collection.
pub fn is_ignored(path: &str, ignore: &Vec<String>) -> (r: bool)
    ensures
        r == ignored_path(path@, ignore.deep_view()),
{
    let mut i: usize = 0;
    while i < ignore.len()
        invariant
            i <= ignore@.len(),
            forall|k: int| 0 <= k < i ==> !has_substring(path@, ignore.deep_view()[k]),
        decreases ignore@.len() - i,
    {
        if contains_sub(path, ignore[i].as_str()) {
            assert(has_substring(path@, ignore.deep_view()[i as int]));
            return true;
        }
        assert(ignore.deep_view()[i as int] == ignore[i as int]@);
        i = i + 1;
    }
    false
}

} // verus!
