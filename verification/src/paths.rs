//! Paths as text, with `/` as the separator.

use vstd::prelude::*;
use vstd::string::*;

verus! {

/// The separator between the components of a path.
pub const SEPARATOR: char = '/';

/// Whether `path` starts at the root.
pub open spec fn is_absolute(path: Seq<char>) -> bool {
    path.len() > 0 && path[0] == SEPARATOR
}

/// `path` adjoined to `base`: an absolute `path` replaces `base`; otherwise
/// `path` is appended, after a separator unless `base` is empty or already
/// ends in one.
pub open spec fn joined(base: Seq<char>, path: Seq<char>) -> Seq<char> {
    if is_absolute(path) {
        path
    } else if base.len() == 0 || base.last() == SEPARATOR {
        base + path
    } else {
        base + seq![SEPARATOR] + path
    }
}

/// Whether `text` starts with the separator.
pub fn starts_at_root(text: &str) -> (r: bool)
    ensures
        r == is_absolute(text@),
{
    let n: usize = text.unicode_len();
    n > 0 && text.get_char(0) == SEPARATOR
}

/// Whether something appended to `base` needs a separator in front of it.
fn needs_separator(base: &str) -> (r: bool)
    ensures
        r == (base@.len() > 0 && base@.last() != SEPARATOR),
{
    let n: usize = base.unicode_len();
    n > 0 && base.get_char(n - 1) != SEPARATOR
}

/// Adjoins `path` to `base`.
pub fn join(base: &str, path: &str) -> (r: String)
    ensures
        r@ == joined(base@, path@),
{
    if starts_at_root(path) {
        String::from_str(path)
    } else if needs_separator(base) {
        let mut out = String::from_str(base);
        out.append("/");
        out.append(path);
        proof {
            reveal_strlit("/");
            assert("/"@ =~= seq![SEPARATOR]);
        }
        out
    } else {
        let mut out = String::from_str(base);
        out.append(path);
        out
    }
}

} // verus!
