//! Unix-style path reasoning for destination files: absoluteness and the
//! parent directory, defined over the path's character sequence.

use vstd::prelude::*;

verus! {

/// A destination path is absolute when it starts with the separator.
pub open spec fn spec_is_absolute(path: Seq<char>) -> bool {
    path.len() > 0 && path[0] == '/'
}

/// Whether `path` is an absolute (root-anchored) path.
pub fn is_absolute_path(path: &str) -> (r: bool)
    ensures
        r == spec_is_absolute(path@),
{
    if path.is_empty() {
        false
    } else {
        path.get_char(0) == '/'
    }
}

/// `path` with its trailing run of separators removed.
pub open spec fn spec_trim_seps(path: Seq<char>) -> Seq<char>
    decreases path.len(),
{
    if path.len() > 0 && path.last() == '/' {
        spec_trim_seps(path.drop_last())
    } else {
        path
    }
}

/// `path` with its trailing run of non-separator characters (the last
/// component) removed.
pub open spec fn spec_trim_component(path: Seq<char>) -> Seq<char>
    decreases path.len(),
{
    if path.len() > 0 && path.last() != '/' {
        spec_trim_component(path.drop_last())
    } else {
        path
    }
}

/// The parent directory of an absolute path: the path with its last component
/// and the separators around it removed; the root when only the leading
/// separators remain; `None` when the path is the root itself.
pub open spec fn spec_parent(path: Seq<char>) -> Option<Seq<char>> {
    let stem = spec_trim_seps(path);
    if stem.len() == 0 {
        None
    } else {
        let prefix = spec_trim_seps(spec_trim_component(stem));
        if prefix.len() == 0 {
            Some(seq!['/'])
        } else {
            Some(prefix)
        }
    }
}

/// The parent directory of the absolute path `path`, as a fresh string;
/// `None` when `path` is the root.
pub fn parent_dir(path: &str) -> (r: Option<String>)
    requires
        spec_is_absolute(path@),
    ensures
        r.deep_view() == spec_parent(path@),
{
    let n = path.unicode_len();
    proof {
        assert(path@.take(n as int) =~= path@);
    }
    let mut e: usize = n;
    while e > 0 && path.get_char(e - 1) == '/'
        invariant
            e <= n,
            n == path@.len(),
            spec_trim_seps(path@) == spec_trim_seps(path@.take(e as int)),
        decreases e,
    {
        proof {
            assert(path@.take(e as int).drop_last() =~= path@.take(e - 1));
        }
        e = e - 1;
    }
    if e == 0 {
        proof {
            assert(path@.take(0) =~= Seq::<char>::empty());
        }
        return None;
    }
    let ghost stem = path@.take(e as int);
    proof {
        assert(spec_trim_seps(stem) == stem);
    }
    let mut j: usize = e;
    while j > 0 && path.get_char(j - 1) != '/'
        invariant
            j <= e <= n,
            n == path@.len(),
            spec_trim_component(stem) == spec_trim_component(path@.take(j as int)),
            stem == path@.take(e as int),
        decreases j,
    {
        proof {
            assert(path@.take(j as int).drop_last() =~= path@.take(j - 1));
        }
        j = j - 1;
    }
    proof {
        if j == 0 {
            assert(path@.take(0) =~= Seq::<char>::empty());
        }
        assert(spec_trim_component(stem) == path@.take(j as int));
    }
    let mut k: usize = j;
    while k > 0 && path.get_char(k - 1) == '/'
        invariant
            k <= j <= n,
            n == path@.len(),
            spec_trim_seps(path@.take(j as int)) == spec_trim_seps(path@.take(k as int)),
        decreases k,
    {
        proof {
            assert(path@.take(k as int).drop_last() =~= path@.take(k - 1));
        }
        k = k - 1;
    }
    if k == 0 {
        proof {
            assert(path@.take(0) =~= Seq::<char>::empty());
            reveal_strlit("/");
            assert("/"@ =~= seq!['/']);
        }
        Some("/".to_owned())
    } else {
        let prefix = path.substring_char(0, k);
        proof {
            assert(prefix@ =~= path@.take(k as int));
        }
        Some(prefix.to_owned())
    }
}

} // verus!
