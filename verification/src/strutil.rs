//! Verified string helpers: search, comparison, trimming, decimal
//! rendering and integer parsing, all specified over `Seq<char>` views.
use vstd::prelude::*;
use vstd::string::*;

verus! {

/// The decimal digit characters.
pub open spec fn is_digit(c: char) -> bool {
    48 <= c as u32 <= 57
}

pub open spec fn digit_val(c: char) -> nat {
    (c as u32 - 48) as nat
}

/// The digit character of `d < 10`.
pub open spec fn digit_char(d: nat) -> char {
    if d == 0 {
        '0'
    } else if d == 1 {
        '1'
    } else if d == 2 {
        '2'
    } else if d == 3 {
        '3'
    } else if d == 4 {
        '4'
    } else if d == 5 {
        '5'
    } else if d == 6 {
        '6'
    } else if d == 7 {
        '7'
    } else if d == 8 {
        '8'
    } else {
        '9'
    }
}

/// The decimal digits of `n`, most significant first.
pub open spec fn dec_digits(n: nat) -> Seq<char>
    decreases n,
{
    if n < 10 {
        seq![digit_char(n)]
    } else {
        dec_digits(n / 10).push(digit_char(n % 10))
    }
}

/// `n` rendered with at least two digits, zero-padded, as `{:02}` renders it.
pub open spec fn padded2(n: nat) -> Seq<char> {
    if n < 10 {
        seq!['0', digit_char(n)]
    } else {
        dec_digits(n)
    }
}

fn digit_str(d: u64) -> (r: &'static str)
    requires
        d < 10,
    ensures
        r@ == seq![digit_char(d as nat)],
{
    proof {
        reveal_strlit("0");
        reveal_strlit("1");
        reveal_strlit("2");
        reveal_strlit("3");
        reveal_strlit("4");
        reveal_strlit("5");
        reveal_strlit("6");
        reveal_strlit("7");
        reveal_strlit("8");
        reveal_strlit("9");
    }
    let r = match d {
        0 => "0",
        1 => "1",
        2 => "2",
        3 => "3",
        4 => "4",
        5 => "5",
        6 => "6",
        7 => "7",
        8 => "8",
        _ => "9",
    };
    proof {
        assert(r@ =~= seq![digit_char(d as nat)]);
    }
    r
}

/// Render `n` in decimal.
pub fn u64_to_string(n: u64) -> (r: String)
    ensures
        r@ == dec_digits(n as nat),
    decreases n,
{
    if n < 10 {
        digit_str(n).to_owned()
    } else {
        let mut s = u64_to_string(n / 10);
        s.append(digit_str(n % 10));
        proof {
            assert(s@ =~= dec_digits(n as nat));
        }
        s
    }
}

/// Render `n` zero-padded to at least two digits.
pub fn pad2(n: u64) -> (r: String)
    ensures
        r@ == padded2(n as nat),
{
    if n < 10 {
        proof {
            reveal_strlit("0");
        }
        let mut s = ("0").to_owned();
        s.append(digit_str(n));
        proof {
            assert(s@ =~= padded2(n as nat));
        }
        s
    } else {
        u64_to_string(n)
    }
}

/// The decimal rendering of a signed value: a minus sign for negatives,
/// then the digits of the magnitude.
pub open spec fn signed_dec_digits(n: int) -> Seq<char> {
    if n < 0 {
        seq!['-'] + dec_digits((-n) as nat)
    } else {
        dec_digits(n as nat)
    }
}

/// Render a signed value in decimal.
pub fn i64_to_string(n: i64) -> (r: String)
    ensures
        r@ == signed_dec_digits(n as int),
{
    if n >= 0 {
        u64_to_string(n as u64)
    } else {
        proof {
            reveal_strlit("-");
        }
        let m: u64 = ((-(n + 1)) as u64) + 1;
        let mut s = ("-").to_owned();
        s.append(u64_to_string(m).as_str());
        proof {
            assert(m == -(n as int));
            assert(s@ =~= signed_dec_digits(n as int));
        }
        s
    }
}

/// `c` occurs somewhere in `s`.
pub open spec fn contains_char(s: Seq<char>, c: char) -> bool {
    exists|i: int| 0 <= i < s.len() && s[i] == c
}

/// Whether `c` occurs in `s`, as `str::contains` with a char pattern.
pub fn has_char(s: &str, c: char) -> (r: bool)
    ensures
        r == contains_char(s@, c),
{
    match find_char(s, c) {
        Option::Some(i) => {
            proof {
                assert(0 <= i < s@.len() && s@[i as int] == c);
            }
            true
        },
        Option::None => false,
    }
}

/// Character-wise string equality.
pub fn str_eq(a: &str, b: &str) -> (r: bool)
    ensures
        r == (a@ == b@),
{
    let la = a.unicode_len();
    let lb = b.unicode_len();
    if la != lb {
        return false;
    }
    let mut i: usize = 0;
    while i < la
        invariant
            la == a@.len(),
            la == b@.len(),
            i <= la,
            forall|j: int| 0 <= j < i ==> a@[j] == b@[j],
        decreases la - i,
    {
        if a.get_char(i) != b.get_char(i) {
            return false;
        }
        i += 1;
    }
    proof {
        assert(a@ =~= b@);
    }
    true
}

/// `pat` occurs in `s` starting at character index `i`.
pub open spec fn occurs_at(s: Seq<char>, i: int, pat: Seq<char>) -> bool {
    &&& 0 <= i
    &&& i + pat.len() <= s.len()
    &&& forall|j: int| 0 <= j < pat.len() ==> s[i + j] == pat[j]
}

/// `pat` occurs somewhere in `s`.
pub open spec fn contains_seq(s: Seq<char>, pat: Seq<char>) -> bool {
    exists|i: int| occurs_at(s, i, pat)
}

fn matches_at(s: &str, i: usize, pat: &str) -> (r: bool)
    requires
        i + pat@.len() <= s@.len(),
        s@.len() <= usize::MAX,
    ensures
        r == occurs_at(s@, i as int, pat@),
{
    let lp = pat.unicode_len();
    let mut j: usize = 0;
    while j < lp
        invariant
            lp == pat@.len(),
            i + lp <= s@.len(),
            s@.len() <= usize::MAX,
            j <= lp,
            forall|k: int| 0 <= k < j ==> s@[i + k] == pat@[k],
        decreases lp - j,
    {
        if s.get_char(i + j) != pat.get_char(j) {
            return false;
        }
        j += 1;
    }
    true
}

/// First character index at which `pat` occurs in `s`, scanning left to
/// right, as `str::find` with a string pattern reports it.
pub fn find_str(s: &str, pat: &str) -> (r: Option<usize>)
    requires
        pat@.len() > 0,
    ensures
        match r {
            Option::Some(i) => occurs_at(s@, i as int, pat@) && forall|j: int|
                0 <= j < i ==> !occurs_at(s@, j, pat@),
            Option::None => !contains_seq(s@, pat@),
        },
{
    let ls = s.unicode_len();
    let lp = pat.unicode_len();
    if lp > ls {
        return None;
    }
    let mut i: usize = 0;
    while i <= ls - lp
        invariant
            ls == s@.len(),
            lp == pat@.len(),
            0 < lp <= ls,
            i <= ls - lp + 1,
            forall|j: int| 0 <= j < i ==> !occurs_at(s@, j, pat@),
        decreases ls - i,
    {
        if matches_at(s, i, pat) {
            return Some(i);
        }
        i += 1;
    }
    proof {
        assert forall|j: int| 0 <= j implies !occurs_at(s@, j, pat@) by {
            if occurs_at(s@, j, pat@) {
                assert(j <= ls - lp);
            }
        }
    }
    None
}

/// First index of `c` in `s`, as `str::find` with a char pattern reports it.
pub fn find_char(s: &str, c: char) -> (r: Option<usize>)
    ensures
        match r {
            Option::Some(i) => i < s@.len() && s@[i as int] == c && forall|j: int|
                0 <= j < i ==> s@[j] != c,
            Option::None => forall|j: int| 0 <= j < s@.len() ==> s@[j] != c,
        },
{
    let ls = s.unicode_len();
    let mut i: usize = 0;
    while i < ls
        invariant
            ls == s@.len(),
            i <= ls,
            forall|j: int| 0 <= j < i ==> s@[j] != c,
        decreases ls - i,
    {
        if s.get_char(i) == c {
            return Some(i);
        }
        i += 1;
    }
    None
}

/// Last index of `c` in `s`, as `str::rfind` with a char pattern reports it.
pub fn rfind_char(s: &str, c: char) -> (r: Option<usize>)
    ensures
        match r {
            Option::Some(i) => i < s@.len() && s@[i as int] == c && forall|j: int|
                i < j < s@.len() ==> s@[j] != c,
            Option::None => forall|j: int| 0 <= j < s@.len() ==> s@[j] != c,
        },
{
    let ls = s.unicode_len();
    let mut i: usize = ls;
    while i > 0
        invariant
            ls == s@.len(),
            i <= ls,
            forall|j: int| i <= j < ls ==> s@[j] != c,
        decreases i,
    {
        i -= 1;
        if s.get_char(i) == c {
            return Some(i);
        }
    }
    None
}

/// Start of the last occurrence of `pat` in `s`, as `str::rfind` with a
/// string pattern reports it.
pub fn rfind_str(s: &str, pat: &str) -> (r: Option<usize>)
    requires
        pat@.len() > 0,
    ensures
        match r {
            Option::Some(i) => occurs_at(s@, i as int, pat@) && forall|j: int|
                i < j ==> !occurs_at(s@, j, pat@),
            Option::None => !contains_seq(s@, pat@),
        },
{
    let ls = s.unicode_len();
    let lp = pat.unicode_len();
    if lp > ls {
        return None;
    }
    let mut i: usize = ls - lp + 1;
    while i > 0
        invariant
            ls == s@.len(),
            lp == pat@.len(),
            0 < lp <= ls,
            i <= ls - lp + 1,
            forall|j: int| i <= j ==> !occurs_at(s@, j, pat@),
        decreases i,
    {
        i -= 1;
        if matches_at(s, i, pat) {
            return Some(i);
        }
    }
    None
}

/// `s` with every trailing repetition of `pat` removed, as
/// `str::trim_end_matches` strips them.
pub open spec fn spec_strip_suffix_all(s: Seq<char>, pat: Seq<char>) -> Seq<char>
    decreases s.len(),
{
    if pat.len() > 0 && pat.len() <= s.len() && occurs_at(s, s.len() - pat.len(), pat) {
        spec_strip_suffix_all(s.subrange(0, s.len() - pat.len()), pat)
    } else {
        s
    }
}

pub fn strip_suffix_all(s: &str, pat: &str) -> (r: String)
    requires
        pat@.len() > 0,
    ensures
        r@ == spec_strip_suffix_all(s@, pat@),
{
    let lp = pat.unicode_len();
    let mut e = s.unicode_len();
    proof {
        assert(s@.subrange(0, s@.len() as int) =~= s@);
    }
    while e >= lp && matches_at(s, e - lp, pat)
        invariant
            lp == pat@.len(),
            lp > 0,
            e <= s@.len(),
            s@.len() <= usize::MAX,
            spec_strip_suffix_all(s@.subrange(0, e as int), pat@) == spec_strip_suffix_all(
                s@,
                pat@,
            ),
        decreases e,
    {
        proof {
            let cur = s@.subrange(0, e as int);
            assert(forall|j: int| 0 <= j < pat@.len() ==> cur[e - lp + j] == #[trigger] s@[e - lp + j]);
            assert(occurs_at(cur, e - lp, pat@));
            assert(cur.subrange(0, e - lp) =~= s@.subrange(0, e - lp));
        }
        e -= lp;
    }
    proof {
        let cur = s@.subrange(0, e as int);
        if e >= lp {
            assert(!occurs_at(s@, e - lp, pat@));
            assert(forall|j: int| 0 <= j < pat@.len() ==> cur[e - lp + j] == #[trigger] s@[e - lp + j]);
            assert(!occurs_at(cur, e - lp, pat@));
        }
        assert(spec_strip_suffix_all(cur, pat@) == cur);
    }
    s.substring_char(0, e).to_owned()
}

/// `a` followed by `b`, as one owned string.
pub fn concat_str(a: &str, b: &str) -> (r: String)
    ensures
        r@ == a@ + b@,
{
    let mut s = a.to_owned();
    s.append(b);
    s
}

/// Whitespace, as the trimmer and normalizer understand it: the Unicode
/// White_Space set, the same characters `char::is_whitespace` reports.
pub open spec fn is_space_char(c: char) -> bool {
    c == ' ' || c == '\t' || c == '\n' || c == '\r' || c == '\u{0b}' || c == '\u{0c}' || c
        == '\u{85}' || c == '\u{a0}' || c == '\u{1680}' || (0x2000 <= c as u32 <= 0x200a) || c
        == '\u{2028}' || c == '\u{2029}' || c == '\u{202f}' || c == '\u{205f}' || c
        == '\u{3000}'
}

pub fn space_char(c: char) -> (r: bool)
    ensures
        r == is_space_char(c),
{
    let u = c as u32;
    c == ' ' || c == '\t' || c == '\n' || c == '\r' || c == '\u{0b}' || c == '\u{0c}' || c
        == '\u{85}' || c == '\u{a0}' || c == '\u{1680}' || (0x2000 <= u && u <= 0x200a) || c
        == '\u{2028}' || c == '\u{2029}' || c == '\u{202f}' || c == '\u{205f}' || c
        == '\u{3000}'
}

/// `s` with leading and trailing whitespace removed.
pub open spec fn spec_trimmed(s: Seq<char>) -> Seq<char> {
    let a = first_non_space(s);
    let b = last_non_space_end(s);
    if a < b {
        s.subrange(a, b)
    } else {
        Seq::empty()
    }
}

/// Index of the first non-space character, or the length.
pub open spec fn first_non_space(s: Seq<char>) -> int {
    choose_first_non_space(s, 0)
}

pub open spec fn choose_first_non_space(s: Seq<char>, i: int) -> int
    decreases s.len() - i,
{
    if i < 0 || i >= s.len() {
        s.len() as int
    } else if is_space_char(s[i]) {
        choose_first_non_space(s, i + 1)
    } else {
        i
    }
}

/// One past the index of the last non-space character, or zero.
pub open spec fn last_non_space_end(s: Seq<char>) -> int {
    choose_last_non_space_end(s, s.len() as int)
}

pub open spec fn choose_last_non_space_end(s: Seq<char>, i: int) -> int
    decreases i,
{
    if i <= 0 || i > s.len() {
        0
    } else if is_space_char(s[i - 1]) {
        choose_last_non_space_end(s, i - 1)
    } else {
        i
    }
}

/// The scan for the trailing edge never runs past its starting point.
proof fn lemma_last_non_space_end_le(s: Seq<char>, i: int)
    requires
        0 <= i <= s.len(),
    ensures
        choose_last_non_space_end(s, i) <= i,
    decreases i,
{
    if i > 0 && is_space_char(s[i - 1]) {
        lemma_last_non_space_end_le(s, i - 1);
    }
}

/// Trim whitespace from both ends, as `str::trim` does for these blanks.
pub fn trim(s: &str) -> (r: &str)
    ensures
        r@ == spec_trimmed(s@),
{
    let ls = s.unicode_len();
    let mut a: usize = 0;
    while a < ls && space_char(s.get_char(a))
        invariant
            ls == s@.len(),
            a <= ls,
            forall|j: int| 0 <= j < a ==> is_space_char(s@[j]),
            choose_first_non_space(s@, 0) == choose_first_non_space(s@, a as int),
        decreases ls - a,
    {
        a += 1;
    }
    proof {
        assert(first_non_space(s@) == a as int);
    }
    let mut b: usize = ls;
    while b > a && space_char(s.get_char(b - 1))
        invariant
            ls == s@.len(),
            a <= b <= ls,
            a as int == first_non_space(s@),
            forall|j: int| b <= j < ls ==> is_space_char(s@[j]),
            choose_last_non_space_end(s@, ls as int) == choose_last_non_space_end(s@, b as int),
        decreases b,
    {
        b -= 1;
    }
    proof {
        if b == a {
            lemma_last_non_space_end_le(s@, b as int);
            assert(choose_last_non_space_end(s@, b as int) <= b);
            assert(last_non_space_end(s@) <= a as int);
            assert(spec_trimmed(s@) =~= Seq::<char>::empty());
        } else {
            assert(!is_space_char(s@[b - 1]));
            assert(choose_last_non_space_end(s@, b as int) == b as int);
            assert(spec_trimmed(s@) =~= s@.subrange(a as int, b as int));
        }
    }
    if b <= a {
        s.substring_char(0, 0)
    } else {
        s.substring_char(a, b)
    }
}

/// The value of a run of digit characters, most significant first.
pub open spec fn digits_value(s: Seq<char>) -> nat
    decreases s.len(),
{
    if s.len() == 0 {
        0
    } else {
        digits_value(s.drop_last()) * 10 + digit_val(s.last())
    }
}

pub open spec fn all_digits(s: Seq<char>) -> bool {
    forall|i: int| 0 <= i < s.len() ==> is_digit(s[i])
}

/// What `str::parse::<i32>` accepts: an optional sign followed by one or
/// more digits, nothing else, with the value in range.
pub open spec fn spec_parsed_i32(s: Seq<char>) -> Option<i32> {
    let (neg, ds) = if s.len() > 0 && s[0] == '-' {
        (true, s.drop_first())
    } else if s.len() > 0 && s[0] == '+' {
        (false, s.drop_first())
    } else {
        (false, s)
    };
    if ds.len() > 0 && all_digits(ds) {
        let v = if neg {
            -(digits_value(ds) as int)
        } else {
            digits_value(ds) as int
        };
        if i32::MIN <= v <= i32::MAX {
            Some(v as i32)
        } else {
            None
        }
    } else {
        None
    }
}

/// Appending a digit multiplies the value by ten; the value never shrinks.
proof fn lemma_digits_value_grow(s: Seq<char>, i: int)
    requires
        0 <= i <= s.len(),
    ensures
        digits_value(s.subrange(0, i)) <= digits_value(s),
    decreases s.len() - i,
{
    if i < s.len() {
        let a = s.subrange(0, i);
        let b = s.subrange(0, i + 1);
        assert(b.drop_last() =~= a);
        assert(digits_value(b) == digits_value(a) * 10 + digit_val(b.last()));
        assert(digits_value(a) <= digits_value(a) * 10) by (nonlinear_arith);
        lemma_digits_value_grow(s, i + 1);
        assert(s.subrange(0, s.len() as int) =~= s);
    } else {
        assert(s.subrange(0, s.len() as int) =~= s);
    }
}

/// Parse a decimal integer exactly as `str::parse::<i32>` does.
pub fn parse_i32(s: &str) -> (r: Option<i32>)
    ensures
        r == spec_parsed_i32(s@),
{
    let ls = s.unicode_len();
    if ls == 0 {
        return None;
    }
    let c0 = s.get_char(0);
    let neg = c0 == '-';
    let start: usize = if c0 == '-' || c0 == '+' {
        1
    } else {
        0
    };
    if ls == start {
        return None;
    }
    let ghost ds = if start == 1 {
        s@.drop_first()
    } else {
        s@
    };
    proof {
        assert(ds.len() == ls - start);
        assert(forall|j: int| 0 <= j < ds.len() ==> ds[j] == s@[start + j]);
    }
    let mut i: usize = start;
    let mut m: u64 = 0;
    let mut too_big = false;
    while i < ls
        invariant
            ls == s@.len(),
            start <= i <= ls,
            start < ls,
            start <= 1,
            (start == 1) == (s@[0] == '-' || s@[0] == '+'),
            neg == (s@[0] == '-'),
            ds == if start == 1 {
                s@.drop_first()
            } else {
                s@
            },
            ds.len() == ls - start,
            forall|j: int| 0 <= j < ds.len() ==> ds[j] == s@[start + j],
            all_digits(ds.subrange(0, i - start)),
            !too_big ==> m == digits_value(ds.subrange(0, i - start)) && m <= 0x8000_0000u64,
            too_big ==> digits_value(ds.subrange(0, i - start)) > 0x8000_0000,
        decreases ls - i,
    {
        let c = s.get_char(i);
        let cu = c as u32;
        if cu < 48 || cu > 57 {
            proof {
                assert(ds[i - start] == s@[i as int]);
                assert(!is_digit(ds[i - start]));
                assert(!all_digits(ds));
            }
            return None;
        }
        let d = (cu - 48) as u64;
        proof {
            let pre = ds.subrange(0, i - start);
            let nxt = ds.subrange(0, i + 1 - start);
            assert(nxt.drop_last() =~= pre);
            assert(nxt.last() == s@[i as int]);
            if !too_big {
                assert(m * 10 + d == digits_value(nxt));
                assert(m <= 0x8000_0000 ==> m * 10 <= 0x5_0000_0000) by (nonlinear_arith);
            } else {
                assert(digits_value(pre) <= digits_value(pre) * 10) by (nonlinear_arith);
            }
        }
        if !too_big {
            m = m * 10 + d;
            if m > 0x8000_0000 {
                too_big = true;
            }
        }
        i += 1;
    }
    proof {
        assert(ds.subrange(0, ds.len() as int) =~= ds);
    }
    if too_big {
        return None;
    }
    if neg {
        if m > 0x8000_0000 {
            return None;
        }
        if m == 0x8000_0000 {
            return Some(i32::MIN);
        }
        Some(-((m as i64) as i32))
    } else {
        if m > 0x7fff_ffff {
            return None;
        }
        Some(m as i32)
    }
}

} // verus!
