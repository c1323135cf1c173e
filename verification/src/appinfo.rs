//! Deriving an application's display name from its executable path.
//!
//! The display name is the path's file stem: the last path component, with
//! trailing separators and trailing current-directory (`.`) components
//! ignored, and the extension after the final dot removed — unless that dot
//! leads the component, as in a hidden file. A path with no usable
//! component (empty, a bare separator, or ending in the parent directory)
//! has no stem and falls back to `"Unknown"`.

use vstd::prelude::*;

verus! {

/// Whether `p` ends in a current-directory component: a final `.` that is
/// the whole path or follows a separator.
pub open spec fn ends_with_cur_dir(p: Seq<char>) -> bool {
    p.len() > 0 && p.last() == '.' && (p.len() == 1 || p[p.len() - 2] == '/')
}

/// `p` with every trailing separator and every trailing current-directory
/// component removed, however they alternate.
pub open spec fn trim_path_end(p: Seq<char>) -> Seq<char>
    decreases p.len(),
{
    if p.len() > 0 && (p.last() == '/' || ends_with_cur_dir(p)) {
        trim_path_end(p.drop_last())
    } else {
        p
    }
}

/// The suffix of `p` after the last occurrence of `c`: all of `p` when `c`
/// does not occur.
pub open spec fn suffix_after_last(p: Seq<char>, c: char) -> Seq<char>
    decreases p.len(),
{
    if p.len() == 0 {
        p
    } else if p.last() == c {
        Seq::empty()
    } else {
        suffix_after_last(p.drop_last(), c).push(p.last())
    }
}

/// The file name of `p`: the component after the last separator, with
/// trailing separators and current-directory components ignored. A path
/// with no component left, or whose last component is the parent
/// directory, has none.
pub open spec fn spec_file_name(p: Seq<char>) -> Option<Seq<char>> {
    let name = suffix_after_last(trim_path_end(p), '/');
    if name.len() == 0 || name == seq!['.', '.'] {
        None
    } else {
        Some(name)
    }
}

/// The stem of a file name: the part before the final dot. A name with no
/// dot, or whose only dot leads it, is its own stem.
pub open spec fn spec_stem_of(name: Seq<char>) -> Seq<char> {
    let ext = suffix_after_last(name, '.');
    if ext.len() >= name.len() || ext.len() + 1 == name.len() {
        name
    } else {
        name.take(name.len() - ext.len() - 1)
    }
}

/// The display name of the application at `p`: its file stem, or
/// `"Unknown"` when the path has no file name.
pub open spec fn spec_display_name(p: Seq<char>) -> Seq<char> {
    match spec_file_name(p) {
        Some(name) => spec_stem_of(name),
        None => "Unknown"@,
    }
}

/// When everything from `j` on differs from `c`, and `c` stands just
/// before `j` (or `j` opens the sequence), the suffix after the last `c`
/// is exactly the part from `j` on.
proof fn lemma_suffix_after_last(p: Seq<char>, c: char, j: int)
    requires
        0 <= j <= p.len(),
        forall|k: int| j <= k < p.len() ==> p[k] != c,
        j == 0 || p[j - 1] == c,
    ensures
        suffix_after_last(p, c) == p.subrange(j, p.len() as int),
    decreases p.len() - j,
{
    if j == p.len() {
        if j == 0 {
            assert(p.subrange(0, 0) =~= p);
        } else {
            assert(p.last() == c);
            assert(p.subrange(j, p.len() as int) =~= Seq::<char>::empty());
        }
    } else {
        assert(p.last() != c);
        let q = p.drop_last();
        lemma_suffix_after_last(q, c, j);
        assert(q.subrange(j, q.len() as int) =~= p.subrange(j, p.len() as int).drop_last());
        assert(p.subrange(j, p.len() as int).drop_last().push(p.last()) =~= p.subrange(
            j,
            p.len() as int,
        ));
    }
}

/// Computes the display name for the application at `path`.
pub fn app_display_name(path: &str) -> (r: String)
    ensures
        r@ == spec_display_name(path@),
{
    let n = path.unicode_len();
    proof {
        assert(path@.take(n as int) =~= path@);
    }
    // Ignore trailing separators and trailing current-directory components.
    let mut end: usize = n;
    while end > 0 && (path.get_char(end - 1) == '/' || (path.get_char(end - 1) == '.' && (end
        == 1 || path.get_char(end - 2) == '/')))
        invariant
            end <= n,
            n == path@.len(),
            trim_path_end(path@.take(end as int)) == trim_path_end(path@),
        decreases end,
    {
        proof {
            assert(path@.take(end as int).last() == path@[end - 1]);
            assert(end >= 2 ==> path@.take(end as int)[end - 2] == path@[end - 2]);
            assert(path@.take(end as int).drop_last() =~= path@.take(end - 1));
        }
        end = end - 1;
    }
    proof {
        if end > 0 {
            assert(path@.take(end as int).last() == path@[end - 1]);
            assert(end >= 2 ==> path@.take(end as int)[end - 2] == path@[end - 2]);
            assert(path@.take(end as int).last() != '/');
            assert(!ends_with_cur_dir(path@.take(end as int)));
        }
        assert(trim_path_end(path@.take(end as int)) == path@.take(end as int));
    }
    // Find the start of the last component.
    let ghost trimmed = path@.take(end as int);
    let mut start: usize = end;
    while start > 0 && path.get_char(start - 1) != '/'
        invariant
            start <= end,
            end <= n,
            n == path@.len(),
            forall|k: int| start <= k < end ==> path@[k] != '/',
        decreases start,
    {
        start = start - 1;
    }
    proof {
        assert(forall|k: int| start <= k < end ==> trimmed[k] == path@[k]);
        lemma_suffix_after_last(trimmed, '/', start as int);
        assert(trimmed.subrange(start as int, end as int) =~= path@.subrange(
            start as int,
            end as int,
        ));
    }
    if start == end {
        // No component is left: the path was empty or all separators.
        let ghost name = suffix_after_last(trimmed, '/');
        proof {
            assert(name.len() == 0);
        }
        return String::from_str("Unknown");
    }
    let name = path.substring_char(start, end);
    let m = end - start;
    let ghost name_view = suffix_after_last(trimmed, '/');
    proof {
        assert(name@ == name_view);
        assert(name_view.len() == m);
    }
    if m == 2 && name.get_char(0) == '.' && name.get_char(1) == '.' {
        proof {
            assert(name_view =~= seq!['.', '.']);
        }
        return String::from_str("Unknown");
    }
    proof {
        assert(name_view != seq!['.', '.']) by {
            if name_view == seq!['.', '.'] {
                assert(name_view.len() == 2 && name_view[0] == '.' && name_view[1] == '.');
            }
        }
        assert(spec_file_name(path@) == Some(name_view));
    }
    // Find the final dot inside the name.
    let mut d: usize = m;
    while d > 0 && name.get_char(d - 1) != '.'
        invariant
            d <= m,
            m == name@.len(),
            forall|k: int| d <= k < m ==> name@[k] != '.',
        decreases d,
    {
        d = d - 1;
    }
    if d <= 1 {
        // No dot, or only a leading one: the whole name is the stem.
        proof {
            if d == 0 {
                lemma_suffix_after_last(name@, '.', 0);
                assert(name@.subrange(0, m as int) =~= name@);
            } else {
                assert(name@[0] == '.');
                lemma_suffix_after_last(name@, '.', 1);
                assert(suffix_after_last(name@, '.').len() + 1 == m);
            }
        }
        name.to_owned()
    } else {
        proof {
            assert(name@[d - 1] == '.');
            lemma_suffix_after_last(name@, '.', d as int);
            assert(suffix_after_last(name@, '.').len() == m - d);
            assert(name@.take(d - 1) =~= name@.subrange(0, d - 1));
        }
        let stem = name.substring_char(0, d - 1);
        proof {
            assert(stem@ =~= spec_stem_of(name@));
        }
        stem.to_owned()
    }
}

} // verus!
