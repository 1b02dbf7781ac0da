//! Executable locator: the sidecar binary is expected to live beside the
//! running application binary, under a fixed name.  Paths are separated by
//! `/`; a path without a separator has no parent directory, and the locator
//! then yields nothing rather than failing.

use vstd::prelude::*;
use vstd::string::StrSliceExecFns;
use vstd::string::StringExecFns;

verus! {

/// Fixed name of the sidecar binary, expected in the directory of the
/// application executable.
pub open spec fn sidecar_name() -> Seq<char> {
    "file-organizer-backend"@
}

/// Whether `p` contains a directory separator, i.e. has a parent directory.
pub open spec fn has_parent(p: Seq<char>) -> bool {
    exists|i: int| 0 <= i < p.len() && p[i] == '/'
}

/// Index of the last separator in `p`, or `-1` when there is none.
pub open spec fn last_slash(p: Seq<char>) -> int
    decreases p.len(),
{
    if p.len() == 0 {
        -1
    } else if p[p.len() - 1] == '/' {
        p.len() - 1
    } else {
        last_slash(p.drop_last())
    }
}

/// The directory component of `p`: everything before the last separator.
pub open spec fn parent_of(p: Seq<char>) -> Seq<char> {
    p.subrange(0, last_slash(p))
}

/// `dir` joined with the fixed sidecar binary name.
pub open spec fn joined(dir: Seq<char>) -> Seq<char> {
    dir + "/"@ + sidecar_name()
}

/// The view of an optional path.
pub open spec fn path_view(p: Option<String>) -> Option<Seq<char>> {
    match p {
        Option::Some(s) => Option::Some(s@),
        Option::None => Option::None,
    }
}

/// What the locator yields for an OS-reported executable path: the sibling
/// path of the sidecar binary, or nothing when the executable path itself is
/// absent or has no parent directory.
pub open spec fn spec_locate(exe: Option<Seq<char>>) -> Option<Seq<char>> {
    match exe {
        Option::None => Option::None,
        Option::Some(p) => if has_parent(p) {
            Option::Some(joined(parent_of(p)))
        } else {
            Option::None
        },
    }
}

/// `last_slash` finds a separator exactly when one exists, and then points at
/// the last one.
proof fn lemma_last_slash(p: Seq<char>)
    ensures
        has_parent(p) <==> 0 <= last_slash(p) < p.len(),
        !has_parent(p) ==> last_slash(p) == -1,
        has_parent(p) ==> p[last_slash(p)] == '/',
        forall|j: int| last_slash(p) < j < p.len() ==> p[j] != '/',
    decreases p.len(),
{
    if p.len() == 0 {
        assert(!has_parent(p));
    } else if p[p.len() - 1] == '/' {
        assert(has_parent(p));
    } else {
        lemma_last_slash(p.drop_last());
        assert(forall|i: int| 0 <= i < p.len() - 1 ==> p.drop_last()[i] == p[i]);
        if has_parent(p) {
            let i = choose|i: int| 0 <= i < p.len() && p[i] == '/';
            assert(p.drop_last()[i] == '/');
            assert(has_parent(p.drop_last()));
        }
        if has_parent(p.drop_last()) {
            let i = choose|i: int| 0 <= i < p.drop_last().len() && p.drop_last()[i] == '/';
            assert(p[i] == '/');
            assert(has_parent(p));
        }
    }
}

/// A separator after which none follows is the last one.
proof fn lemma_last_slash_at(p: Seq<char>, k: int)
    requires
        0 <= k < p.len(),
        p[k] == '/',
        forall|j: int| k < j < p.len() ==> p[j] != '/',
    ensures
        last_slash(p) == k,
    decreases p.len(),
{
    if k == p.len() - 1 {
    } else {
        assert(p[p.len() - 1] != '/');
        assert(forall|i: int| 0 <= i < p.len() - 1 ==> p.drop_last()[i] == p[i]);
        lemma_last_slash_at(p.drop_last(), k);
    }
}

/// Executable locator: resolve the expected sidecar path as a sibling of the
/// given application executable path, or report it absent.  This is a pure
/// computation: an undetermined executable path or a path without a parent
/// directory yields `None`, never an error.
pub fn locate_sidecar(exe: &Option<String>) -> (r: Option<String>)
    ensures
        path_view(r) == spec_locate(path_view(*exe)),
{
    let p = match exe {
        Option::None => {
            return Option::None;
        },
        Option::Some(p) => p,
    };
    let s = p.as_str();
    let n = s.unicode_len();
    let mut i: usize = n;
    while i > 0
        invariant
            i <= n,
            n == s@.len(),
            path_view(*exe) == Option::Some(s@),
            forall|j: int| i <= j < n ==> s@[j] != '/',
        decreases i,
    {
        if s.get_char(i - 1) == '/' {
            proof {
                lemma_last_slash_at(s@, i - 1);
                lemma_last_slash(s@);
            }
            let dir = s.substring_char(0, i - 1);
            let mut out = dir.to_owned();
            out.append("/");
            out.append("file-organizer-backend");
            proof {
                assert(out@ =~= joined(parent_of(s@)));
            }
            return Option::Some(out);
        }
        i = i - 1;
    }
    proof {
        assert(!has_parent(s@));
    }
    Option::None
}

/// When the current executable path cannot be determined, or it has no parent
/// directory, the locator yields nothing — an absent path, not a failure.
pub proof fn lemma_locator_absent(exe: Option<Seq<char>>)
    requires
        exe is None || !has_parent(exe->0),
    ensures
        spec_locate(exe) is None,
{
}

} // verus!
