//! Locations that the engine navigates to.
use vstd::prelude::*;

verus! {

/// A location, held as the parts that the supervisor reads: `href` is the
/// whole address as the client gave it, `path` its path component.
#[derive(PartialEq, Eq, Debug, Clone)]
pub struct Url {
    pub href: String,
    pub path: String,
}

impl Url {
    pub fn new(href: String, path: String) -> (u: Url)
        ensures
            u.href == href,
            u.path == path,
    {
        Url { href, path }
    }
}

/// The path ends in the script extension `.js`.
pub open spec fn has_script_suffix(path: Seq<char>) -> bool {
    &&& path.len() >= 3
    &&& path.subrange(path.len() - 3, path.len() as int) == seq!['.', 'j', 's']
}

/// Whether `path` names a script, that is, ends in `.js`.
pub fn is_script_path(path: &str) -> (r: bool)
    ensures
        r == has_script_suffix(path@),
{
    let n = path.unicode_len();
    if n < 3 {
        return false;
    }
    let dot = path.get_char(n - 3);
    let j = path.get_char(n - 2);
    let s = path.get_char(n - 1);
    let ghost tail = path@.subrange(n - 3, n as int);
    assert(tail.len() == 3 && tail[0] == dot && tail[1] == j && tail[2] == s);
    if dot == '.' && j == 'j' && s == 's' {
        assert(tail =~= seq!['.', 'j', 's']);
        true
    } else {
        assert(tail != seq!['.', 'j', 's']) by {
            if tail == seq!['.', 'j', 's'] {
                assert(tail[0] == '.' && tail[1] == 'j' && tail[2] == 's');
            }
        }
        false
    }
}

} // verus!
