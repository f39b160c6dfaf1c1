//! Character-level text utilities shared by the form, HTML and HTTP modules.
//!
//! Text is processed as sequences of Unicode scalar values (`Vec<char>` in
//! executable code, `Seq<char>` in contracts).

use vstd::prelude::*;
use vstd::string::*;

verus! {

/// `String::push` appends one character to the end of the string.
pub assume_specification[ String::push ](s: &mut String, ch: char)
    ensures
        final(s)@ == old(s)@.push(ch),
;

/// Whether `c` has the Unicode `Alphabetic` property, as `char::is_alphabetic` reports it.
pub uninterp spec fn unicode_alphabetic(c: char) -> bool;

/// Whether `c` has the Unicode `White_Space` property, as `char::is_whitespace`
/// reports it: the 25 code points U+0009..=U+000D, U+0020, U+0085, U+00A0,
/// U+1680, U+2000..=U+200A, U+2028, U+2029, U+202F, U+205F and U+3000.
pub open spec fn unicode_whitespace(c: char) -> bool {
    ||| ('\u{9}' <= c && c <= '\u{d}')
    ||| c == '\u{20}'
    ||| c == '\u{85}'
    ||| c == '\u{a0}'
    ||| c == '\u{1680}'
    ||| ('\u{2000}' <= c && c <= '\u{200a}')
    ||| c == '\u{2028}'
    ||| c == '\u{2029}'
    ||| c == '\u{202f}'
    ||| c == '\u{205f}'
    ||| c == '\u{3000}'
}

/// Calls `char::is_alphabetic`. The contract claims only that the answer is a
/// function of `c` (named `unicode_alphabetic`); the Unicode tables behind it
/// are not restated here.
#[verifier::external_body]
pub(crate) fn is_alphabetic(c: char) -> (r: bool)
    ensures
        r == unicode_alphabetic(c),
{
    c.is_alphabetic()
}

/// Calls `char::is_whitespace`. The contract claims that it answers `true`
/// exactly on the `White_Space` code points listed in [`unicode_whitespace`].
#[verifier::external_body]
pub(crate) fn is_whitespace(c: char) -> (r: bool)
    ensures
        r == unicode_whitespace(c),
{
    c.is_whitespace()
}

/// The Alphabetic property on Basic Latin and Latin-1 (`c <= U+00FF`): the
/// ASCII letters, U+00AA, U+00B5, U+00BA, and U+00C0..=U+00FF except the
/// signs U+00D7 and U+00F7.
pub open spec fn latin1_alphabetic(c: char) -> bool {
    ||| ('A' <= c && c <= 'Z')
    ||| ('a' <= c && c <= 'z')
    ||| c == '\u{aa}'
    ||| c == '\u{b5}'
    ||| c == '\u{ba}'
    ||| ('\u{c0}' <= c && c <= '\u{d6}')
    ||| ('\u{d8}' <= c && c <= '\u{f6}')
    ||| ('\u{f8}' <= c && c <= '\u{ff}')
}

/// Code points made only of letters: Latin Extended-A (U+0100..=U+017F), the
/// Greek capital and small letters (U+0391..=U+03A9 except the unassigned
/// U+03A2, and U+03B1..=U+03C9), the Cyrillic letters (U+0400..=U+0481 and
/// U+048A..=U+04FF), the Armenian letters (U+0531..=U+0556, U+0561..=U+0586),
/// the Hebrew letters (U+05D0..=U+05EA), the basic Arabic letters
/// (U+0621..=U+063A, U+0641..=U+064A), the Georgian letters (U+10D0..=U+10FA),
/// Hiragana (U+3041..=U+3096), Katakana (U+30A1..=U+30FA), the original CJK
/// unified ideographs (U+4E00..=U+9FA5) and the Hangul syllables
/// (U+AC00..=U+D7A3).
pub open spec fn in_letter_block(c: char) -> bool {
    ||| ('\u{100}' <= c && c <= '\u{17f}')
    ||| ('\u{391}' <= c && c <= '\u{3a1}')
    ||| ('\u{3a3}' <= c && c <= '\u{3a9}')
    ||| ('\u{3b1}' <= c && c <= '\u{3c9}')
    ||| ('\u{400}' <= c && c <= '\u{481}')
    ||| ('\u{48a}' <= c && c <= '\u{4ff}')
    ||| ('\u{531}' <= c && c <= '\u{556}')
    ||| ('\u{561}' <= c && c <= '\u{586}')
    ||| ('\u{5d0}' <= c && c <= '\u{5ea}')
    ||| ('\u{621}' <= c && c <= '\u{63a}')
    ||| ('\u{641}' <= c && c <= '\u{64a}')
    ||| ('\u{10d0}' <= c && c <= '\u{10fa}')
    ||| ('\u{3041}' <= c && c <= '\u{3096}')
    ||| ('\u{30a1}' <= c && c <= '\u{30fa}')
    ||| ('\u{4e00}' <= c && c <= '\u{9fa5}')
    ||| ('\u{ac00}' <= c && c <= '\u{d7a3}')
}

/// Whether `c` is alphabetic: stated outright up to U+00FF and on the letter
/// blocks of [`in_letter_block`], and as `char::is_alphabetic` reports it
/// (`unicode_alphabetic`) everywhere else.
pub open spec fn alphabetic(c: char) -> bool {
    if c <= '\u{ff}' {
        latin1_alphabetic(c)
    } else if in_letter_block(c) {
        true
    } else {
        unicode_alphabetic(c)
    }
}

/// Executable form of [`in_letter_block`].
fn in_letter_block_exec(c: char) -> (r: bool)
    ensures
        r == in_letter_block(c),
{
    ('\u{100}' <= c && c <= '\u{17f}') ||
    ('\u{391}' <= c && c <= '\u{3a1}') ||
    ('\u{3a3}' <= c && c <= '\u{3a9}') ||
    ('\u{3b1}' <= c && c <= '\u{3c9}') ||
    ('\u{400}' <= c && c <= '\u{481}') ||
    ('\u{48a}' <= c && c <= '\u{4ff}') ||
    ('\u{531}' <= c && c <= '\u{556}') ||
    ('\u{561}' <= c && c <= '\u{586}') ||
    ('\u{5d0}' <= c && c <= '\u{5ea}') ||
    ('\u{621}' <= c && c <= '\u{63a}') ||
    ('\u{641}' <= c && c <= '\u{64a}') ||
    ('\u{10d0}' <= c && c <= '\u{10fa}') ||
    ('\u{3041}' <= c && c <= '\u{3096}') ||
    ('\u{30a1}' <= c && c <= '\u{30fa}') ||
    ('\u{4e00}' <= c && c <= '\u{9fa5}') ||
    ('\u{ac00}' <= c && c <= '\u{d7a3}')
}

/// Whether `c` is alphabetic (`char::is_alphabetic`), decided here for
/// Latin-1 and the letter blocks, and by the Unicode tables elsewhere.
pub fn is_letter(c: char) -> (r: bool)
    ensures
        r == alphabetic(c),
{
    if c <= '\u{ff}' {
        ('A' <= c && c <= 'Z') || ('a' <= c && c <= 'z') || c == '\u{aa}' || c == '\u{b5}'
            || c == '\u{ba}' || ('\u{c0}' <= c && c <= '\u{d6}') || ('\u{d8}' <= c && c
            <= '\u{f6}') || ('\u{f8}' <= c && c <= '\u{ff}')
    } else if in_letter_block_exec(c) {
        true
    } else {
        is_alphabetic(c)
    }
}

/// An ASCII decimal digit `'0'..='9'`.
pub open spec fn is_ascii_digit(c: char) -> bool {
    '0' <= c && c <= '9'
}

/// Executable form of [`is_ascii_digit`].
pub fn ascii_digit(c: char) -> (r: bool)
    ensures
        r == is_ascii_digit(c),
{
    '0' <= c && c <= '9'
}

/// Every character of `s` is an ASCII digit.
pub open spec fn all_ascii_digits(s: Seq<char>) -> bool {
    forall|i: int| 0 <= i < s.len() ==> #[trigger] is_ascii_digit(s[i])
}

/// Some character of `s` is an ASCII digit.
pub open spec fn some_ascii_digit(s: Seq<char>) -> bool {
    exists|i: int| 0 <= i < s.len() && #[trigger] is_ascii_digit(s[i])
}

/// Some character of `s` is alphabetic.
pub open spec fn some_alphabetic(s: Seq<char>) -> bool {
    exists|i: int| 0 <= i < s.len() && #[trigger] alphabetic(s[i])
}

/// The characters of `s`, in order.
pub fn chars_of(s: &str) -> (v: Vec<char>)
    ensures
        v@ == s@,
{
    let mut v: Vec<char> = Vec::new();
    for c in it: s.chars()
        invariant
            v@ == it.seq().take(it.index() as int),
            it.seq() == s@,
    {
        v.push(c);
    }
    v
}

/// A `String` holding exactly the characters of `v`.
pub fn string_of(v: &Vec<char>) -> (s: String)
    ensures
        s@ == v@,
{
    let mut s = String::new();
    for i in 0..v.len()
        invariant
            s@ == v@.take(i as int),
    {
        s.push(v[i]);
        assert(v@.take(i + 1) =~= v@.take(i as int).push(v@[i as int]));
    }
    assert(v@.take(v.len() as int) =~= v@);
    s
}

/// Appends the characters of `v` to `s`.
pub fn push_chars(s: &mut String, v: &Vec<char>)
    ensures
        final(s)@ == old(s)@ + v@,
{
    for i in 0..v.len()
        invariant
            s@ == old(s)@ + v@.take(i as int),
    {
        s.push(v[i]);
        assert(v@.take(i + 1) =~= v@.take(i as int).push(v@[i as int]));
    }
    assert(v@.take(v.len() as int) =~= v@);
}

/// A copy of `v[from..to]`.
pub fn sub_chars(v: &Vec<char>, from: usize, to: usize) -> (r: Vec<char>)
    requires
        from <= to <= v.len(),
    ensures
        r@ == v@.subrange(from as int, to as int),
{
    let mut r: Vec<char> = Vec::new();
    let mut i = from;
    while i < to
        invariant
            from <= i <= to <= v.len(),
            r@ == v@.subrange(from as int, i as int),
        decreases to - i,
    {
        r.push(v[i]);
        assert(v@.subrange(from as int, i + 1) =~= v@.subrange(from as int, i as int).push(
            v@[i as int],
        ));
        i = i + 1;
    }
    r
}

/// Whether `a` and `b` hold the same characters.
pub fn chars_eq(a: &Vec<char>, b: &Vec<char>) -> (r: bool)
    ensures
        r == (a@ == b@),
{
    if a.len() != b.len() {
        return false;
    }
    for i in 0..a.len()
        invariant
            a.len() == b.len(),
            forall|j: int| 0 <= j < i ==> a@[j] == b@[j],
    {
        if a[i] != b[i] {
            return false;
        }
    }
    assert(a@ =~= b@);
    true
}

// ── Trimming ────────────────────────────────────────────────────────────────

/// `s` without its leading whitespace.
pub open spec fn trim_start(s: Seq<char>) -> Seq<char>
    decreases s.len(),
{
    if s.len() > 0 && unicode_whitespace(s[0]) {
        trim_start(s.drop_first())
    } else {
        s
    }
}

/// `s` without its trailing whitespace.
pub open spec fn trim_end(s: Seq<char>) -> Seq<char>
    decreases s.len(),
{
    if s.len() > 0 && unicode_whitespace(s.last()) {
        trim_end(s.drop_last())
    } else {
        s
    }
}

/// `s` without leading and trailing whitespace, as `str::trim` gives it.
pub open spec fn trim(s: Seq<char>) -> Seq<char> {
    trim_end(trim_start(s))
}

/// Executable form of [`trim`].
pub fn trim_chars(s: &Vec<char>) -> (r: Vec<char>)
    ensures
        r@ == trim(s@),
{
    let n = s.len();
    let mut a: usize = 0;
    assert(s@.subrange(0, n as int) =~= s@);
    while a < n && is_whitespace(s[a])
        invariant
            a <= n == s.len(),
            trim_start(s@) == trim_start(s@.subrange(a as int, n as int)),
        decreases n - a,
    {
        assert(s@.subrange(a as int, n as int).drop_first() =~= s@.subrange(a + 1, n as int));
        a = a + 1;
    }
    let mut b: usize = n;
    while b > a && is_whitespace(s[b - 1])
        invariant
            a <= b <= n == s.len(),
            trim_start(s@) == s@.subrange(a as int, n as int),
            trim(s@) == trim_end(s@.subrange(a as int, b as int)),
        decreases b - a,
    {
        assert(s@.subrange(a as int, b as int).drop_last() =~= s@.subrange(a as int, b - 1));
        b = b - 1;
    }
    sub_chars(s, a, b)
}

/// The characters of `s` without leading and trailing whitespace.
pub fn trimmed_chars(s: &str) -> (r: Vec<char>)
    ensures
        r@ == trim(s@),
{
    let v = chars_of(s);
    trim_chars(&v)
}


// ── Decimal numerals ────────────────────────────────────────────────────────

/// The ASCII digit for `d` (`d < 10`).
pub open spec fn digit_char(d: nat) -> char {
    (48 + d) as char
}

/// The decimal numeral of `n`, without leading zeros.
pub open spec fn decimal(n: nat) -> Seq<char>
    decreases n,
{
    if n < 10 {
        seq![digit_char(n)]
    } else {
        decimal(n / 10).push(digit_char(n % 10))
    }
}

/// The decimal numeral of `i`, with a leading `-` when negative, as `Display` writes integers.
pub open spec fn decimal_int(i: int) -> Seq<char> {
    if i < 0 {
        seq!['-'] + decimal((-i) as nat)
    } else {
        decimal(i as nat)
    }
}

fn digit(d: u64) -> (c: char)
    requires
        d < 10,
    ensures
        c == digit_char(d as nat),
{
    let b: u8 = 48 + d as u8;
    b as char
}

/// The decimal numeral of `n`.
pub fn decimal_u64(n: u64) -> (v: Vec<char>)
    ensures
        v@ == decimal(n as nat),
    decreases n,
{
    if n < 10 {
        let mut v: Vec<char> = Vec::new();
        v.push(digit(n));
        assert(v@ =~= seq![digit_char(n as nat)]);
        v
    } else {
        let mut v = decimal_u64(n / 10);
        v.push(digit(n % 10));
        v
    }
}

/// The decimal numeral of `n`, as `format!("{}", n)` writes it.
pub fn decimal_i64(n: i64) -> (v: Vec<char>)
    ensures
        v@ == decimal_int(n as int),
{
    if n < 0 {
        let m: u64 = (0i128 - n as i128) as u64;
        let d = decimal_u64(m);
        let mut v: Vec<char> = Vec::new();
        v.push('-');
        for i in 0..d.len()
            invariant
                v@ == seq!['-'] + d@.take(i as int),
        {
            v.push(d[i]);
            assert(d@.take(i + 1) =~= d@.take(i as int).push(d@[i as int]));
        }
        assert(d@.take(d.len() as int) =~= d@);
        v
    } else {
        decimal_u64(n as u64)
    }
}


// ── Searching ───────────────────────────────────────────────────────────────

/// `pat` occurs in `s` starting at index `i`.
pub open spec fn occurs_at(s: Seq<char>, pat: Seq<char>, i: int) -> bool {
    0 <= i && i + pat.len() <= s.len() && s.subrange(i, i + pat.len()) == pat
}

/// The index of the first occurrence of `pat` in `s`, or `-1` when there is none
/// (`str::find` with a string pattern).
pub open spec fn find(s: Seq<char>, pat: Seq<char>) -> int
    decreases s.len(),
{
    if s.len() < pat.len() {
        -1
    } else if s.take(pat.len() as int) == pat {
        0
    } else if s.len() == 0 {
        -1
    } else {
        let r = find(s.drop_first(), pat);
        if r < 0 {
            -1
        } else {
            r + 1
        }
    }
}

/// [`find`] gives the first occurrence, and `-1` exactly when there is none.
pub proof fn lemma_find(s: Seq<char>, pat: Seq<char>)
    ensures
        find(s, pat) >= -1,
        find(s, pat) >= 0 ==> occurs_at(s, pat, find(s, pat)),
        forall|j: int| 0 <= j && (find(s, pat) < 0 || j < find(s, pat)) ==> !#[trigger] occurs_at(s, pat, j),
    decreases s.len(),
{
    if s.len() < pat.len() {
    } else if s.take(pat.len() as int) == pat {
        assert(s.subrange(0, pat.len() as int) =~= s.take(pat.len() as int));
    } else {
        assert(s.len() > 0) by {
            if s.len() == 0 {
                assert(s.take(pat.len() as int) =~= pat);
            }
        }
        let t = s.drop_first();
        lemma_find(t, pat);
        assert forall|j: int| 1 <= j && j + pat.len() <= s.len() implies
            #[trigger] s.subrange(j, j + pat.len()) =~= t.subrange(j - 1, j - 1 + pat.len()) by {}
        assert(!occurs_at(s, pat, 0)) by {
            assert(s.subrange(0, pat.len() as int) =~= s.take(pat.len() as int));
        }
        assert forall|j: int| 0 <= j && (find(s, pat) < 0 || j < find(s, pat)) implies
            !#[trigger] occurs_at(s, pat, j) by {
            if j >= 1 {
                assert(!occurs_at(t, pat, j - 1));
            }
        }
        if find(s, pat) >= 0 {
            let r = find(t, pat);
            assert(occurs_at(t, pat, r));
        }
    }
}

/// Whether `pat` occurs in `s` at index `i`.
fn occurs_at_exec(s: &Vec<char>, pat: &Vec<char>, i: usize) -> (r: bool)
    requires
        i + pat.len() <= s.len(),
    ensures
        r == occurs_at(s@, pat@, i as int),
{
    let m = pat.len();
    for k in 0..m
        invariant
            m == pat.len(),
            i + m <= s.len(),
            forall|q: int| 0 <= q < k ==> s@[i + q] == pat@[q],
    {
        if s[i + k] != pat[k] {
            assert(s@.subrange(i as int, i + m)[k as int] != pat@[k as int]);
            return false;
        }
    }
    assert(s@.subrange(i as int, i + m) =~= pat@);
    true
}

/// The index of the first occurrence of `pat` in `s`.
pub fn find_chars(s: &Vec<char>, pat: &Vec<char>) -> (r: Option<usize>)
    ensures
        match r {
            Some(i) => find(s@, pat@) == i,
            None => find(s@, pat@) == -1,
        },
{
    proof {
        lemma_find(s@, pat@);
    }
    let n = s.len();
    let m = pat.len();
    if m > n {
        return None;
    }
    let mut i: usize = 0;
    while i <= n - m
        invariant
            m <= n,
            i <= n - m + 1,
            n == s.len(),
            m == pat.len(),
            forall|j: int| 0 <= j < i ==> !#[trigger] occurs_at(s@, pat@, j),
            find(s@, pat@) >= -1,
            find(s@, pat@) >= 0 ==> occurs_at(s@, pat@, find(s@, pat@)),
            forall|j: int| 0 <= j && (find(s@, pat@) < 0 || j < find(s@, pat@)) ==> !#[trigger] occurs_at(s@, pat@, j),
        decreases n - m - i + 1,
    {
        if occurs_at_exec(s, pat, i) {
            return Some(i);
        }
        if i == n - m {
            assert forall|j: int| 0 <= j implies !#[trigger] occurs_at(s@, pat@, j) by {
                if j > i {
                    assert(j + m > n);
                }
            }
            return None;
        }
        i = i + 1;
    }
    assert forall|j: int| 0 <= j implies !#[trigger] occurs_at(s@, pat@, j) by {
        if j >= i {
            assert(j + m > n);
        }
    }
    None
}

/// The index of the first occurrence of the character `c` in `s`.
pub fn find_char(s: &Vec<char>, c: char) -> (r: Option<usize>)
    ensures
        match r {
            Some(i) => find(s@, seq![c]) == i,
            None => find(s@, seq![c]) == -1,
        },
{
    let mut p: Vec<char> = Vec::new();
    p.push(c);
    assert(p@ =~= seq![c]);
    find_chars(s, &p)
}


// ── Integer parsing ─────────────────────────────────────────────────────────

/// The value of a run of ASCII digits, read in base 10.
pub open spec fn digits_value(s: Seq<char>) -> nat
    decreases s.len(),
{
    if s.len() == 0 {
        0
    } else {
        digits_value(s.drop_last()) * 10 + ((s.last() as int - 48) as nat)
    }
}

/// What `str::parse::<i64>` gives for `s`: an optional `+` or `-`, then one or
/// more ASCII digits, whose signed value must fit in an `i64`.
pub open spec fn parse_i64(s: Seq<char>) -> Option<i64> {
    let signed = s.len() > 0 && (s[0] == '+' || s[0] == '-');
    let neg = s.len() > 0 && s[0] == '-';
    let ds = if signed {
        s.drop_first()
    } else {
        s
    };
    if ds.len() == 0 || !all_ascii_digits(ds) {
        None
    } else {
        let v: int = if neg {
            -(digits_value(ds) as int)
        } else {
            digits_value(ds) as int
        };
        if i64::MIN <= v <= i64::MAX {
            Some(v as i64)
        } else {
            None
        }
    }
}

/// Parses `s` as `str::parse::<i64>` does.
pub fn parse_i64_chars(s: &Vec<char>) -> (r: Option<i64>)
    ensures
        r == parse_i64(s@),
{
    let n = s.len();
    let mut start: usize = 0;
    let mut neg = false;
    if n > 0 && (s[0] == '+' || s[0] == '-') {
        start = 1;
        neg = s[0] == '-';
    }
    let ghost ds = s@.subrange(start as int, n as int);
    assert(start == 1 ==> ds =~= s@.drop_first());
    assert(start == 0 ==> ds =~= s@);
    if start == n {
        return None;
    }
    let mut acc: u64 = 0;
    let mut big = false;
    let mut i = start;
    assert(s@.subrange(start as int, start as int) =~= Seq::<char>::empty());
    while i < n
        invariant
            start <= i <= n == s.len(),
            ds == s@.subrange(start as int, n as int),
            ds == (if s@.len() > 0 && (s@[0] == '+' || s@[0] == '-') {
                s@.drop_first()
            } else {
                s@
            }),
            neg == (s@.len() > 0 && s@[0] == '-'),
            forall|j: int| start <= j < i ==> #[trigger] is_ascii_digit(s@[j]),
            big ==> digits_value(s@.subrange(start as int, i as int)) > 9223372036854775808,
            !big ==> acc == digits_value(s@.subrange(start as int, i as int)),
            !big ==> acc <= 9223372036854775808,
        decreases n - i,
    {
        let c = s[i];
        if !ascii_digit(c) {
            assert(ds[i - start] == c);
            assert(!is_ascii_digit(ds[i - start]));
            assert(ds.len() > 0);
            return None;
        }
        let d: u64 = (c as u32 - 48) as u64;
        let ghost pre = s@.subrange(start as int, i as int);
        let ghost post = s@.subrange(start as int, i + 1);
        assert(post.drop_last() =~= pre);
        assert(post.last() == c);
        if !big {
            let nv: u128 = acc as u128 * 10 + d as u128;
            if nv > 9223372036854775808 {
                big = true;
            } else {
                acc = nv as u64;
            }
        }
        i = i + 1;
    }
    assert(s@.subrange(start as int, n as int) == ds);
    assert(all_ascii_digits(ds));
    if big {
        None
    } else if neg {
        Some((0i128 - acc as i128) as i64)
    } else if acc > 9223372036854775807 {
        None
    } else {
        Some(acc as i64)
    }
}


// ── Splitting ───────────────────────────────────────────────────────────────

/// `s` cut at every `sep`, as `str::split` with a `char` does: `n` separators
/// give `n + 1` pieces, and an empty `s` gives one empty piece.
pub open spec fn split_at_char(s: Seq<char>, sep: char) -> Seq<Seq<char>>
    decreases s.len(),
{
    if s.len() == 0 {
        seq![Seq::<char>::empty()]
    } else {
        let r = split_at_char(s.drop_last(), sep);
        if s.last() == sep {
            r.push(Seq::<char>::empty())
        } else {
            r.update(r.len() - 1, r.last().push(s.last()))
        }
    }
}

/// Splitting always gives at least one piece.
pub proof fn lemma_split_nonempty(s: Seq<char>, sep: char)
    ensures
        split_at_char(s, sep).len() >= 1,
    decreases s.len(),
{
    if s.len() > 0 {
        lemma_split_nonempty(s.drop_last(), sep);
    }
}

/// The pieces of `s` between occurrences of `sep`.
pub fn split_chars(s: &Vec<char>, sep: char) -> (r: Vec<Vec<char>>)
    ensures
        r@.len() == split_at_char(s@, sep).len(),
        forall|i: int| 0 <= i < r@.len() ==> #[trigger] r@[i]@ == split_at_char(s@, sep)[i],
{
    let mut pieces: Vec<Vec<char>> = Vec::new();
    let mut cur: Vec<char> = Vec::new();
    assert(s@.take(0) =~= Seq::<char>::empty());
    for i in 0..s.len()
        invariant
            pieces@.len() + 1 == split_at_char(s@.take(i as int), sep).len(),
            forall|j: int| 0 <= j < pieces@.len() ==> #[trigger] pieces@[j]@ == split_at_char(
                s@.take(i as int),
                sep,
            )[j],
            cur@ == split_at_char(s@.take(i as int), sep).last(),
    {
        let ghost pre = s@.take(i as int);
        let ghost post = s@.take(i + 1);
        assert(post.drop_last() =~= pre);
        assert(post.last() == s@[i as int]);
        proof {
            lemma_split_nonempty(pre, sep);
        }
        if s[i] == sep {
            let done = cur;
            pieces.push(done);
            cur = Vec::new();
            assert(cur@ =~= Seq::<char>::empty());
        } else {
            cur.push(s[i]);
        }
    }
    assert(s@.take(s.len() as int) =~= s@);
    pieces.push(cur);
    pieces
}


// ── Replacing ───────────────────────────────────────────────────────────────

/// `s` with every occurrence of the non-empty `pat` replaced by `rep`, found
/// left to right without overlap, as `str::replace` does (an empty `pat`
/// leaves `s` as it is).
pub open spec fn replace_all(s: Seq<char>, pat: Seq<char>, rep: Seq<char>) -> Seq<char>
    decreases s.len(),
{
    if pat.len() == 0 || s.len() < pat.len() || s.len() == 0 {
        s
    } else if s.take(pat.len() as int) == pat {
        rep + replace_all(s.skip(pat.len() as int), pat, rep)
    } else {
        seq![s[0]] + replace_all(s.drop_first(), pat, rep)
    }
}

} // verus!
