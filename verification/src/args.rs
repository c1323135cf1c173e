//! Whitespace splitting of a descriptor's argument string.
//!
//! An argument string is cut into tokens at runs of whitespace; the tokens
//! are the maximal runs of non-whitespace characters, in order. There is no
//! quoting or escaping: a quoted phrase is split like anything else. That is
//! a documented limitation of the argument syntax, not something to repair
//! here.

use vstd::prelude::*;

verus! {

/// Whether `c` is a whitespace character, following the Unicode
/// `White_Space` property (the set `char::is_whitespace` uses).
pub open spec fn is_space_char(c: char) -> bool {
    ||| c == '\t'
    ||| c == '\n'
    ||| c == '\u{B}'
    ||| c == '\u{C}'
    ||| c == '\r'
    ||| c == ' '
    ||| c == '\u{85}'
    ||| c == '\u{A0}'
    ||| c == '\u{1680}'
    ||| (0x2000 <= c as u32 && c as u32 <= 0x200A)
    ||| c == '\u{2028}'
    ||| c == '\u{2029}'
    ||| c == '\u{202F}'
    ||| c == '\u{205F}'
    ||| c == '\u{3000}'
}

/// Executable check for [`is_space_char`].
pub fn is_space(c: char) -> (r: bool)
    ensures
        r == is_space_char(c),
{
    let u = c as u32;
    u == 0x9 || u == 0xA || u == 0xB || u == 0xC || u == 0xD || u == 0x20 || u == 0x85
        || u == 0xA0 || u == 0x1680 || (0x2000 <= u && u <= 0x200A) || u == 0x2028
        || u == 0x2029 || u == 0x202F || u == 0x205F || u == 0x3000
}

/// The tokens of `s`: the maximal runs of non-whitespace characters, in
/// order. Defined by folding over `s` from the right: a whitespace character
/// ends any token; a non-whitespace character extends the token it follows,
/// or opens a new one.
pub open spec fn split_ws(s: Seq<char>) -> Seq<Seq<char>>
    decreases s.len(),
{
    if s.len() == 0 {
        Seq::empty()
    } else {
        let prefix = s.drop_last();
        let rest = split_ws(prefix);
        if is_space_char(s.last()) {
            rest
        } else if prefix.len() > 0 && !is_space_char(prefix.last()) {
            rest.update(rest.len() - 1, rest.last().push(s.last()))
        } else {
            rest.push(seq![s.last()])
        }
    }
}

/// Splits `s` into its whitespace-delimited tokens.
pub fn split_args(s: &str) -> (r: Vec<String>)
    ensures
        r@.map_values(|t: String| t@) == split_ws(s@),
{
    let n = s.unicode_len();
    let mut toks: Vec<String> = Vec::new();
    // Start of the token currently being scanned, if the scan is inside one.
    let mut start: Option<usize> = None;
    let mut i: usize = 0;
    while i < n
        invariant
            n == s@.len(),
            i <= n,
            match start {
                Some(j) => {
                    &&& j < i
                    &&& (j == 0 || is_space_char(s@[j - 1]))
                    &&& (forall|k: int| j <= k < i ==> !is_space_char(s@[k]))
                    &&& split_ws(s@.take(i as int)) == toks@.map_values(|t: String| t@).push(
                        s@.subrange(j as int, i as int),
                    )
                },
                None => {
                    &&& (i == 0 || is_space_char(s@[i - 1]))
                    &&& split_ws(s@.take(i as int)) == toks@.map_values(|t: String| t@)
                },
            },
        decreases n - i,
    {
        let c = s.get_char(i);
        proof {
            assert(s@.take(i + 1).drop_last() =~= s@.take(i as int));
            assert(s@.take(i + 1).last() == s@[i as int]);
        }
        if is_space(c) {
            if let Some(j) = start {
                let tok = s.substring_char(j, i).to_owned();
                proof {
                    let ghost old_views = toks@.map_values(|t: String| t@);
                    assert(old_views.push(tok@) =~= toks@.push(tok).map_values(
                        |t: String| t@,
                    ));
                }
                toks.push(tok);
                start = None;
            }
        } else {
            match start {
                None => {
                    proof {
                        let ghost prefix = s@.take(i as int);
                        assert(i > 0 ==> prefix.last() == s@[i - 1]);
                        assert(seq![s@[i as int]] =~= s@.subrange(i as int, i + 1));
                    }
                    start = Some(i);
                },
                Some(j) => {
                    proof {
                        let ghost prefix = s@.take(i as int);
                        let ghost views = toks@.map_values(|t: String| t@);
                        let ghost cur = s@.subrange(j as int, i as int);
                        assert(prefix.last() == s@[i - 1]);
                        assert(split_ws(prefix) == views.push(cur));
                        assert(views.push(cur).len() - 1 == views.len());
                        assert(views.push(cur).last() == cur);
                        assert(views.push(cur).update(views.len() as int, cur.push(s@[i as int]))
                            =~= views.push(cur.push(s@[i as int])));
                        assert(cur.push(s@[i as int]) =~= s@.subrange(j as int, i + 1));
                    }
                },
            }
        }
        i = i + 1;
    }
    proof {
        assert(s@.take(n as int) =~= s@);
    }
    if let Some(j) = start {
        let tok = s.substring_char(j, n).to_owned();
        proof {
            let ghost old_views = toks@.map_values(|t: String| t@);
            assert(old_views.push(tok@) =~= toks@.push(tok).map_values(|t: String| t@));
        }
        toks.push(tok);
    }
    toks
}

} // verus!
