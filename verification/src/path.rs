//! Where a job's file is saved: the client's prefix, then the job's own path.
use vstd::prelude::*;
use vstd::string::*;

verus! {

/// Whether `c` separates the components of a path.
pub open spec fn is_separator(c: char) -> bool {
    c == '\\' || c == '/'
}

/// `path` under `prefix`. One separator is put between the two unless the
/// prefix is empty or ends in one.
pub open spec fn prefixed(prefix: Seq<char>, path: Seq<char>) -> Seq<char> {
    if prefix.len() == 0 {
        path
    } else if is_separator(prefix.last()) {
        prefix + path
    } else {
        prefix.push('\\') + path
    }
}

/// Puts `prefix` in front of `path`.
pub fn prefix_path(prefix: &str, path: &str) -> (result: String)
    ensures
        result@ == prefixed(prefix@, path@),
{
    let len = prefix.unicode_len();
    let mut result = String::from_str(prefix);
    if len > 0 {
        let last = prefix.get_char(len - 1);
        if !(last == '\\' || last == '/') {
            proof {
                reveal_strlit("\\");
            }
            result.append("\\");
        }
    }
    result.append(path);
    result
}

/// What is put in front of a path is still there, and the path itself ends
/// the result.
pub proof fn lemma_prefixed_keeps_both(prefix: Seq<char>, path: Seq<char>)
    ensures
        prefix.is_prefix_of(prefixed(prefix, path)),
        path.is_suffix_of(prefixed(prefix, path)),
        prefix.len() + path.len() <= prefixed(prefix, path).len() <= prefix.len() + path.len()
            + 1,
{
}

} // verus!
