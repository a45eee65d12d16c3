use vstd::prelude::*;

use crate::error::DbfsError;

verus! {

/// The optional scheme in front of a remote path.
pub open spec fn scheme() -> Seq<char> {
    "dbfs:"@
}

/// Whether `p` begins with the scheme.
pub open spec fn has_scheme(p: Seq<char>) -> bool {
    p.len() >= scheme().len() && p.subrange(0, scheme().len() as int) == scheme()
}

/// `p` with one leading scheme removed, if it has one.
pub open spec fn without_scheme(p: Seq<char>) -> Seq<char> {
    if has_scheme(p) {
        p.subrange(scheme().len() as int, p.len() as int)
    } else {
        p
    }
}

/// Whether `p` is an absolute path.
pub open spec fn is_absolute(p: Seq<char>) -> bool {
    p.len() > 0 && p[0] == '/'
}

/// The remote path that `p` names, or `None` where `p` names none.
pub open spec fn remote_path(p: Seq<char>) -> Option<Seq<char>> {
    if is_absolute(without_scheme(p)) {
        Some(without_scheme(p))
    } else {
        None
    }
}

/// Whether `e` is the error for the invalid path `p`.
pub open spec fn is_invalid_path_error(e: DbfsError, p: Seq<char>) -> bool {
    &&& e is InvalidDbfsPath
    &&& e->InvalidDbfsPath_0@ == p
}

/// Strips an optional `dbfs:` scheme from `path` and checks that what is
/// left is absolute.
pub fn strip_dbfs_prefix(path: &str) -> (r: Result<&str, DbfsError>)
    ensures
        match r {
            Ok(s) => remote_path(path@) == Some(s@),
            Err(e) => remote_path(path@) is None && is_invalid_path_error(e, path@),
        },
{
    proof {
        reveal_strlit("dbfs:");
    }
    let n = path.unicode_len();
    let prefixed = n >= 5 && path.get_char(0) == 'd' && path.get_char(1) == 'b'
        && path.get_char(2) == 'f' && path.get_char(3) == 's' && path.get_char(4) == ':';
    assert(prefixed == has_scheme(path@)) by {
        if has_scheme(path@) {
            assert(path@.subrange(0, 5)[0] == 'd');
            assert(path@.subrange(0, 5)[1] == 'b');
            assert(path@.subrange(0, 5)[2] == 'f');
            assert(path@.subrange(0, 5)[3] == 's');
            assert(path@.subrange(0, 5)[4] == ':');
        }
        if prefixed {
            assert(path@.subrange(0, 5) =~= scheme());
        }
    }
    let rest = if prefixed {
        path.substring_char(5, n)
    } else {
        path
    };
    if rest.unicode_len() > 0 && rest.get_char(0) == '/' {
        Ok(rest)
    } else {
        Err(DbfsError::InvalidDbfsPath(String::from_str(path)))
    }
}

/// A path written with the scheme and the same path written without it name
/// the same remote file; a path that is not absolute once the scheme is
/// stripped names none.
pub proof fn lemma_scheme_is_optional(p: Seq<char>)
    ensures
        is_absolute(p) ==> remote_path(scheme() + p) == Some(p) && remote_path(p) == Some(p),
        !is_absolute(without_scheme(p)) ==> remote_path(p) is None,
{
    reveal_strlit("dbfs:");
    let q = scheme() + p;
    assert(q.subrange(0, 5) =~= scheme());
    assert(q.subrange(5, q.len() as int) =~= p);
    if is_absolute(p) {
        assert(!has_scheme(p)) by {
            if has_scheme(p) {
                assert(p.subrange(0, 5)[0] == p[0]);
            }
        }
    }
}

} // verus!
