//! Title normalization: collapse whitespace runs to single spaces and drop
//! the space before a left parenthesis, as upstream season titles need
//! before they are used in paths.
use vstd::prelude::*;
use vstd::string::*;

use crate::strutil::{find_str, is_space_char, occurs_at, space_char, spec_trimmed, trim};

verus! {

/// First index at which `pat` occurs in `s`, or `-1`.
pub open spec fn first_seq_at(s: Seq<char>, pat: Seq<char>) -> int
    decreases s.len(),
{
    if pat.len() > s.len() {
        -1
    } else if occurs_at(s, 0, pat) {
        0
    } else if s.len() == 0 {
        -1
    } else {
        let r = first_seq_at(s.drop_first(), pat);
        if r < 0 {
            -1
        } else {
            r + 1
        }
    }
}

/// The exec search and the spec index agree: a least occurrence pins
/// `first_seq_at`, and absence pins `-1`.
pub proof fn lemma_first_seq_at_some(s: Seq<char>, pat: Seq<char>, i: int)
    requires
        occurs_at(s, i, pat),
        forall|j: int| 0 <= j < i ==> !occurs_at(s, j, pat),
    ensures
        first_seq_at(s, pat) == i,
    decreases s.len(),
{
    if i == 0 {
    } else {
        assert(!occurs_at(s, 0, pat));
        let t = s.drop_first();
        assert(occurs_at(t, i - 1, pat)) by {
            assert(forall|k: int| 0 <= k < pat.len() ==> #[trigger] t[i - 1 + k] == s[i + k]);
        }
        assert forall|j: int| 0 <= j < i - 1 implies !occurs_at(t, j, pat) by {
            if occurs_at(t, j, pat) {
                assert(occurs_at(s, j + 1, pat)) by {
                    assert(forall|k: int| 0 <= k < pat.len() ==> #[trigger] s[j + 1 + k] == t[j + k]);
                }
            }
        }
        lemma_first_seq_at_some(t, pat, i - 1);
    }
}

pub proof fn lemma_first_seq_at_none(s: Seq<char>, pat: Seq<char>)
    requires
        forall|j: int| !occurs_at(s, j, pat),
    ensures
        first_seq_at(s, pat) == -1,
    decreases s.len(),
{
    if pat.len() <= s.len() && s.len() > 0 {
        let t = s.drop_first();
        assert forall|j: int| !occurs_at(t, j, pat) by {
            if occurs_at(t, j, pat) {
                assert(occurs_at(s, j + 1, pat)) by {
                    assert(forall|k: int| 0 <= k < pat.len() ==> #[trigger] s[j + 1 + k] == t[j + k]);
                }
            }
        }
        lemma_first_seq_at_none(t, pat);
    }
}

/// A non-negative `first_seq_at` is a real occurrence.
proof fn lemma_first_seq_at_occurs(s: Seq<char>, pat: Seq<char>)
    requires
        first_seq_at(s, pat) >= 0,
    ensures
        occurs_at(s, first_seq_at(s, pat), pat),
    decreases s.len(),
{
    if pat.len() <= s.len() && !occurs_at(s, 0, pat) && s.len() > 0 {
        let t = s.drop_first();
        if first_seq_at(t, pat) >= 0 {
            lemma_first_seq_at_occurs(t, pat);
            let j = first_seq_at(t, pat);
            assert(occurs_at(s, j + 1, pat)) by {
                assert(forall|k: int| 0 <= k < pat.len() ==> #[trigger] s[j + 1 + k] == t[j + k]);
            }
        }
    }
}

/// `s` with every occurrence of `pat` replaced by `rep`, scanning left to
/// right without rescanning replacements, as `str::replace` does.
pub open spec fn spec_replace(s: Seq<char>, pat: Seq<char>, rep: Seq<char>) -> Seq<char>
    decreases s.len(),
    via spec_replace_decreases
{
    if pat.len() == 0 {
        s
    } else {
        let i = first_seq_at(s, pat);
        if i < 0 {
            s
        } else {
            s.subrange(0, i) + rep + spec_replace(
                s.subrange(i + pat.len(), s.len() as int),
                pat,
                rep,
            )
        }
    }
}

#[via_fn]
proof fn spec_replace_decreases(s: Seq<char>, pat: Seq<char>, rep: Seq<char>) {
    if pat.len() > 0 && first_seq_at(s, pat) >= 0 {
        lemma_first_seq_at_occurs(s, pat);
    }
}

/// Replace every occurrence of `pat` by `rep`, as `str::replace` does.
pub fn replace_all(s: &str, pat: &str, rep: &str) -> (r: String)
    requires
        pat@.len() > 0,
    ensures
        r@ == spec_replace(s@, pat@, rep@),
{
    let mut out = String::new();
    let mut pos: usize = 0;
    let ls = s.unicode_len();
    proof {
        assert(s@.subrange(0, ls as int) =~= s@);
        assert(out@ + spec_replace(s@, pat@, rep@) =~= spec_replace(s@, pat@, rep@));
    }
    while pos < ls
        invariant
            ls == s@.len(),
            pos <= ls,
            pat@.len() > 0,
            spec_replace(s@, pat@, rep@) == out@ + spec_replace(
                s@.subrange(pos as int, ls as int),
                pat@,
                rep@,
            ),
        decreases ls - pos,
    {
        let rest = s.substring_char(pos, ls);
        match find_str(rest, pat) {
            Option::Some(i) => {
                proof {
                    lemma_first_seq_at_some(rest@, pat@, i as int);
                }
                let hit = pos + i;
                out.append(s.substring_char(pos, hit));
                out.append(rep);
                let newpos = hit + pat.unicode_len();
                proof {
                    let tail = s@.subrange(pos as int, ls as int);
                    assert(tail.subrange(0, i as int) =~= s@.subrange(pos as int, hit as int));
                    assert(tail.subrange(i + pat@.len(), tail.len() as int) =~= s@.subrange(
                        newpos as int,
                        ls as int,
                    ));
                    assert(spec_replace(s@, pat@, rep@) =~= out@ + spec_replace(
                        s@.subrange(newpos as int, ls as int),
                        pat@,
                        rep@,
                    ));
                }
                pos = newpos;
            },
            Option::None => {
                proof {
                    lemma_first_seq_at_none(rest@, pat@);
                }
                out.append(rest);
                proof {
                    assert(s@.subrange(ls as int, ls as int) =~= Seq::<char>::empty());
                    assert(first_seq_at(Seq::<char>::empty(), pat@) == -1);
                    assert(spec_replace(s@, pat@, rep@) =~= out@ + spec_replace(
                        s@.subrange(ls as int, ls as int),
                        pat@,
                        rep@,
                    ));
                }
                pos = ls;
            },
        }
    }
    proof {
        assert(s@.subrange(ls as int, ls as int) =~= Seq::<char>::empty());
        assert(out@ =~= spec_replace(s@, pat@, rep@));
    }
    out
}

/// The whitespace-collapsed remainder of `s` from `i` on: spaces vanish, and
/// one space is put before a word character when `sep` is owed.
pub open spec fn collapse_from(s: Seq<char>, i: int, sep: bool) -> Seq<char>
    decreases s.len() - i,
{
    if i < 0 || i >= s.len() {
        Seq::empty()
    } else if is_space_char(s[i]) {
        collapse_from(s, i + 1, true)
    } else {
        (if sep {
            seq![' ']
        } else {
            Seq::<char>::empty()
        }) + seq![s[i]] + collapse_from(s, i + 1, false)
    }
}

/// `s` split on whitespace and joined with single spaces: trimmed, with
/// every whitespace run collapsed to one space.
pub open spec fn spec_collapsed_ws(s: Seq<char>) -> Seq<char> {
    collapse_from(spec_trimmed(s), 0, false)
}

/// Collapse whitespace runs to single spaces and trim the ends, as
/// splitting on whitespace and joining with single spaces does.
pub fn collapse_ws(s: &str) -> (r: String)
    ensures
        r@ == spec_collapsed_ws(s@),
{
    let t = trim(s);
    let lt = t.unicode_len();
    let mut out = String::new();
    let mut i: usize = 0;
    let mut sep = false;
    while i < lt
        invariant
            lt == t@.len(),
            i <= lt,
            collapse_from(t@, 0, false) == out@ + collapse_from(t@, i as int, sep),
        decreases lt - i,
    {
        let c = t.get_char(i);
        if space_char(c) {
            sep = true;
            i += 1;
        } else {
            if sep {
                proof {
                    reveal_strlit(" ");
                }
                out.append(" ");
            }
            out.append(t.substring_char(i, i + 1));
            proof {
                assert(t@.subrange(i as int, i + 1) =~= seq![t@[i as int]]);
                assert(collapse_from(t@, 0, false) =~= out@ + collapse_from(
                    t@,
                    i + 1,
                    false,
                ));
            }
            sep = false;
            i += 1;
        }
    }
    out
}

/// A season title, normalized: whitespace runs collapsed to single spaces,
/// then the space before a left parenthesis — full-width or half-width —
/// removed.
pub open spec fn spec_normalized_title(s: Seq<char>) -> Seq<char> {
    spec_replace(
        spec_replace(spec_collapsed_ws(s), seq![' ', '\u{ff08}'], seq!['\u{ff08}']),
        seq![' ', '('],
        seq!['('],
    )
}

/// Normalize a season title for use in paths and lookups.
pub fn normalize_title(s: &str) -> (r: String)
    ensures
        r@ == spec_normalized_title(s@),
{
    proof {
        reveal_strlit(" \u{ff08}");
        reveal_strlit("\u{ff08}");
        reveal_strlit(" (");
        reveal_strlit("(");
    }
    let collapsed = collapse_ws(s);
    let step = replace_all(collapsed.as_str(), " \u{ff08}", "\u{ff08}");
    let r = replace_all(step.as_str(), " (", "(");
    proof {
        assert((" \u{ff08}")@ =~= seq![' ', '\u{ff08}']);
        assert(("\u{ff08}")@ =~= seq!['\u{ff08}']);
        assert((" (")@ =~= seq![' ', '(']);
        assert(("(")@ =~= seq!['(']);
    }
    r
}

} // verus!
