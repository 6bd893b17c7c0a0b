//! Character classes, UTF-8 decoding and small text helpers shared by the
//! TNC grammars.
use vstd::prelude::*;
use vstd::utf8::*;

verus! {

/// What `char::is_numeric` reports of a character (Unicode general
/// categories Nd, Nl and No).
pub uninterp spec fn char_is_numeric(c: char) -> bool;

/// What `char::is_alphabetic` reports of a character (Unicode `Alphabetic`
/// property).
pub uninterp spec fn char_is_alphabetic(c: char) -> bool;

/// What `char::is_whitespace` reports of a character (Unicode `White_Space`
/// property).
pub uninterp spec fn char_is_whitespace(c: char) -> bool;

/// What `regex_syntax::is_word_character` reports of a character: the
/// Unicode word characters that the pattern class `\w` matches.
pub uninterp spec fn char_is_word(c: char) -> bool;

/// ASCII letters `A-Z` and `a-z`
pub open spec fn is_ascii_alpha(c: char) -> bool {
    ('A' <= c && c <= 'Z') || ('a' <= c && c <= 'z')
}

/// ASCII digits `0-9`
pub open spec fn is_ascii_digit(c: char) -> bool {
    '0' <= c && c <= '9'
}

/// ASCII letters and digits
pub open spec fn is_ascii_alnum(c: char) -> bool {
    is_ascii_alpha(c) || is_ascii_digit(c)
}

/// Characters of a callsign: ASCII letters, digits and `-`
pub open spec fn is_call_char(c: char) -> bool {
    is_ascii_alnum(c) || c == '-'
}

/// The space character
pub open spec fn is_space(c: char) -> bool {
    c == ' '
}

/// `char::is_numeric`.
///
/// The contract claims that the result is the named property of `c`, and
/// that among ASCII characters exactly the digits `0-9` are numeric.
#[verifier::external_body]
pub(crate) fn char_numeric(c: char) -> (r: bool)
    ensures
        r == char_is_numeric(c),
        (c as u32) < 128 ==> (r <==> is_ascii_digit(c)),
{
    c.is_numeric()
}

/// `char::is_alphabetic`.
///
/// The contract claims that the result is the named property of `c`, and
/// that among ASCII characters exactly the letters are alphabetic.
#[verifier::external_body]
pub(crate) fn char_alphabetic(c: char) -> (r: bool)
    ensures
        r == char_is_alphabetic(c),
        (c as u32) < 128 ==> (r <==> is_ascii_alpha(c)),
{
    c.is_alphabetic()
}

/// `char::is_whitespace`.
///
/// The contract claims that the result is the named property of `c`, and
/// that among ASCII characters exactly space, tab, line feed, vertical tab,
/// form feed and carriage return are white space.
#[verifier::external_body]
pub(crate) fn char_whitespace(c: char) -> (r: bool)
    ensures
        r == char_is_whitespace(c),
        (c as u32) < 128 ==> (r <==> (c == ' ' || ('\t' <= c && c <= '\r'))),
{
    c.is_whitespace()
}

/// `regex_syntax::is_word_character`.
///
/// The contract claims that the result is the named property of `c`, and
/// that among ASCII characters exactly letters, digits and `_` are word
/// characters. The crate is built with its default `unicode-perl` feature,
/// so the call does not panic.
#[verifier::external_body]
pub(crate) fn char_word(c: char) -> (r: bool)
    ensures
        r == char_is_word(c),
        (c as u32) < 128 ==> (r <==> (is_ascii_alnum(c) || c == '_')),
{
    regex_syntax::is_word_character(c)
}

/// `std::str::from_utf8`, taken to an owned `String`.
///
/// The contract claims that decoding succeeds exactly on well-formed UTF-8
/// (as `vstd::utf8::valid_utf8` defines it) and then yields the decoded
/// characters.
#[verifier::external_body]
pub(crate) fn utf8_to_string(bytes: &[u8]) -> (r: Option<String>)
    ensures
        r is Some <==> valid_utf8(bytes@),
        r matches Some(s) ==> s@ == decode_utf8(bytes@),
{
    match std::str::from_utf8(bytes) {
        Ok(s) => Some(s.to_owned()),
        Err(_) => None,
    }
}

/// The characters of a string, in order
pub fn chars_of(s: &str) -> (v: Vec<char>)
    ensures
        v@ == s@,
{
    let mut v: Vec<char> = Vec::new();
    for c in it: s.chars()
        invariant
            v@ == it.seq().take(it.index()),
    {
        v.push(c);
        assert(v@ == it.seq().take(it.index() + 1));
    }
    v
}

/// True if two character sequences are equal
pub fn chars_eq(a: &[char], b: &[char]) -> (r: bool)
    ensures
        r == (a@ == b@),
{
    if a.len() != b.len() {
        return false;
    }
    let mut i: usize = 0;
    while i < a.len()
        invariant
            a@.len() == b@.len(),
            i <= a@.len(),
            forall|k: int| 0 <= k < i ==> a@[k] == b@[k],
        decreases a@.len() - i,
    {
        if a[i] != b[i] {
            return false;
        }
        i = i + 1;
    }
    assert(a@ =~= b@);
    true
}

/// A class of characters that a grammar scans over
#[derive(Debug, Clone, Copy, PartialEq, Eq, Structural)]
pub enum CharClass {
    /// The space character
    Space,
    /// ASCII letters
    AsciiAlpha,
    /// ASCII letters and digits
    AsciiAlnum,
    /// Callsign characters: ASCII letters, digits and `-`
    Call,
    /// Unicode numeric characters (`char::is_numeric`)
    Numeric,
    /// Unicode alphabetic characters (`char::is_alphabetic`)
    Alphabetic,
    /// Unicode white space (`char::is_whitespace`)
    Whitespace,
    /// Unicode word characters (`\w`)
    Word,
}

impl CharClass {
    /// True if `c` belongs to this class
    pub open spec fn holds(self, c: char) -> bool {
        match self {
            CharClass::Space => is_space(c),
            CharClass::AsciiAlpha => is_ascii_alpha(c),
            CharClass::AsciiAlnum => is_ascii_alnum(c),
            CharClass::Call => is_call_char(c),
            CharClass::Numeric => char_is_numeric(c),
            CharClass::Alphabetic => char_is_alphabetic(c),
            CharClass::Whitespace => char_is_whitespace(c),
            CharClass::Word => char_is_word(c),
        }
    }

    /// True if `c` belongs to this class
    pub fn test(&self, c: char) -> (r: bool)
        ensures
            r == self.holds(c),
    {
        match self {
            CharClass::Space => c == ' ',
            CharClass::AsciiAlpha => ('A' <= c && c <= 'Z') || ('a' <= c && c <= 'z'),
            CharClass::AsciiAlnum => ('A' <= c && c <= 'Z') || ('a' <= c && c <= 'z') || ('0' <= c
                && c <= '9'),
            CharClass::Call => ('A' <= c && c <= 'Z') || ('a' <= c && c <= 'z') || ('0' <= c && c
                <= '9') || c == '-',
            CharClass::Numeric => char_numeric(c),
            CharClass::Alphabetic => char_alphabetic(c),
            CharClass::Whitespace => char_whitespace(c),
            CharClass::Word => char_word(c),
        }
    }
}

/// End of the longest run of characters of class `k` that starts at `i`
pub open spec fn span(l: Seq<char>, i: int, k: CharClass) -> int
    decreases l.len() - i,
{
    if 0 <= i < l.len() && k.holds(l[i]) {
        span(l, i + 1, k)
    } else {
        i
    }
}

/// A run ends within the text, covers only characters of its class, and
/// stops at the first character outside the class
pub proof fn lemma_span(l: Seq<char>, i: int, k: CharClass)
    requires
        0 <= i <= l.len(),
    ensures
        i <= span(l, i, k) <= l.len(),
        forall|m: int| i <= m < span(l, i, k) ==> k.holds(#[trigger] l[m]),
        span(l, i, k) < l.len() ==> !k.holds(l[span(l, i, k)]),
    decreases l.len() - i,
{
    if i < l.len() && k.holds(l[i]) {
        lemma_span(l, i + 1, k);
    }
}

/// A tag does not occur where one of its characters is not matched
pub proof fn lemma_tag_mismatch(l: Seq<char>, i: int, t: Seq<char>, k: int)
    requires
        0 <= i,
        0 <= k < t.len(),
        i + k < l.len(),
        l[i + k] != t[k],
    ensures
        !has_tag(l, i, t),
{
    if has_tag(l, i, t) {
        assert(l.subrange(i, i + t.len())[k] == t[k]);
    }
}

/// The end of the run of class `k` that starts at `i`
pub fn scan(l: &[char], i: usize, k: CharClass) -> (j: usize)
    requires
        i <= l@.len(),
    ensures
        j == span(l@, i as int, k),
        i <= j <= l@.len(),
        l@.len() <= usize::MAX,
{
    proof {
        lemma_span(l@, i as int, k);
    }
    let _n = l.len();
    let mut j = i;
    loop
        invariant
            i <= j <= l@.len(),
            span(l@, i as int, k) == span(l@, j as int, k),
        ensures
            j == span(l@, i as int, k),
        decreases l@.len() - j,
    {
        if j >= l.len() {
            assert(span(l@, j as int, k) == j as int);
            break ;
        }
        if !k.test(l[j]) {
            assert(span(l@, j as int, k) == j as int);
            break ;
        }
        j = j + 1;
    }
    j
}

/// True if `t` occurs in `l` at position `i`
pub open spec fn has_tag(l: Seq<char>, i: int, t: Seq<char>) -> bool {
    0 <= i && i + t.len() <= l.len() && l.subrange(i, i + t.len()) == t
}

/// True if `t` occurs in `l` at position `i`
pub fn tag_at(l: &[char], i: usize, t: &[char]) -> (r: bool)
    ensures
        r == has_tag(l@, i as int, t@),
        l@.len() <= usize::MAX,
{
    let _n = l.len();
    if i > l.len() || t.len() > l.len() - i {
        return false;
    }
    let n = l.len();
    let mut m: usize = 0;
    while m < t.len()
        invariant
            n == l@.len(),
            i + t@.len() <= l@.len(),
            m <= t@.len(),
            forall|q: int| 0 <= q < m ==> l@[i + q] == t@[q],
        decreases t@.len() - m,
    {
        if l[i + m] != t[m] {
            assert(l@.subrange(i as int, i + t@.len())[m as int] != t@[m as int]);
            return false;
        }
        m = m + 1;
    }
    assert(l@.subrange(i as int, i + t@.len()) =~= t@);
    true
}

/// The characters of `text` from position `a` up to `b`, as a string
pub fn substring(text: &str, a: usize, b: usize) -> (r: String)
    requires
        a <= b <= text@.len(),
    ensures
        r@ == text@.subrange(a as int, b as int),
{
    text.substring_char(a, b).to_owned()
}

/// Numeric value of an ASCII digit
pub open spec fn digit_value(c: char) -> nat {
    ((c as int) - 48) as nat
}

/// Value of a string of decimal digits, most significant first
pub open spec fn decimal_value(s: Seq<char>) -> nat
    decreases s.len(),
{
    if s.len() == 0 {
        0
    } else {
        decimal_value(s.drop_last()) * 10 + digit_value(s.last())
    }
}

/// True if every character of `s` is an ASCII digit
pub open spec fn all_ascii_digits(s: Seq<char>) -> bool {
    forall|m: int| 0 <= m < s.len() ==> is_ascii_digit(#[trigger] s[m])
}

/// A prefix of a digit string never has a larger value than the string
pub proof fn lemma_decimal_prefix(s: Seq<char>, n: int)
    requires
        0 <= n <= s.len(),
    ensures
        decimal_value(s.take(n)) <= decimal_value(s),
    decreases s.len(),
{
    if n < s.len() {
        assert(s.drop_last().take(n) =~= s.take(n));
        lemma_decimal_prefix(s.drop_last(), n);
    } else {
        assert(s.take(n) =~= s);
    }
}

/// The unsigned number that starts at `i`: the whole run of numeric
/// characters there must be non-empty, made of ASCII digits, and at most
/// `max`. Yields the end of the run and the value.
pub open spec fn spec_number(l: Seq<char>, i: int, max: nat) -> Option<(int, nat)> {
    let j = span(l, i, CharClass::Numeric);
    let s = l.subrange(i, j);
    if j > i && all_ascii_digits(s) && decimal_value(s) <= max {
        Some((j, decimal_value(s)))
    } else {
        None
    }
}

/// Reads the unsigned number that starts at `i`, as `spec_number` says
pub fn scan_number(l: &[char], i: usize, max: u64) -> (r: Option<(usize, u64)>)
    requires
        i <= l@.len(),
    ensures
        r matches Some((j, v)) ==> spec_number(l@, i as int, max as nat) == Some((j as int, v as nat)),
        r is None ==> spec_number(l@, i as int, max as nat) is None,
        r matches Some((j, v)) ==> i < j <= l@.len(),
{
    let mut j = i;
    let mut val: u64 = 0;
    let mut ok = true;
    loop
        invariant
            i <= j <= l@.len(),
            span(l@, i as int, CharClass::Numeric) == span(l@, j as int, CharClass::Numeric),
            ok ==> all_ascii_digits(l@.subrange(i as int, j as int)) && decimal_value(
                l@.subrange(i as int, j as int),
            ) == val && val <= max,
            !ok ==> !(all_ascii_digits(l@.subrange(i as int, j as int)) && decimal_value(
                l@.subrange(i as int, j as int),
            ) <= max),
        ensures
            i <= j <= l@.len(),
            j == span(l@, i as int, CharClass::Numeric),
            ok ==> all_ascii_digits(l@.subrange(i as int, j as int)) && decimal_value(
                l@.subrange(i as int, j as int),
            ) == val && val <= max,
            !ok ==> !(all_ascii_digits(l@.subrange(i as int, j as int)) && decimal_value(
                l@.subrange(i as int, j as int),
            ) <= max),
        decreases l@.len() - j,
    {
        if j >= l.len() {
            assert(span(l@, j as int, CharClass::Numeric) == j as int);
            break ;
        }
        let c = l[j];
        if !CharClass::Numeric.test(c) {
            assert(span(l@, j as int, CharClass::Numeric) == j as int);
            break ;
        }
        let ghost prev = l@.subrange(i as int, j as int);
        let ghost next = l@.subrange(i as int, j + 1);
        assert(next.drop_last() =~= prev);
        assert(next.last() == c);
        if ok {
            if '0' <= c && c <= '9' {
                let d: u64 = (c as u32 - '0' as u32) as u64;
                assert(d == digit_value(c));
                let nv: u128 = val as u128 * 10 + d as u128;
                if nv <= max as u128 {
                    val = nv as u64;
                } else {
                    ok = false;
                }
            } else {
                ok = false;
                assert(!is_ascii_digit(next[next.len() - 1]));
            }
        } else {
            proof {
                if all_ascii_digits(next) {
                    assert(all_ascii_digits(prev));
                    assert(decimal_value(prev) <= decimal_value(next));
                }
            }
        }
        j = j + 1;
    }
    if j > i && ok {
        Some((j, val))
    } else {
        None
    }
}

/// Decimal digit character of a value below ten
pub open spec fn digit_char(d: nat) -> char {
    (d + 48) as char
}

/// Decimal text of a number, most significant digit first
pub open spec fn decimal_text(n: nat) -> Seq<char>
    decreases n,
{
    if n < 10 {
        seq![digit_char(n)]
    } else {
        decimal_text(n / 10).push(digit_char(n % 10))
    }
}

/// The one-character text of a decimal digit
fn digit_str(d: u64) -> (s: &'static str)
    requires
        d < 10,
    ensures
        s@ == seq![digit_char(d as nat)],
{
    proof {
        reveal_strlit("0");
        reveal_strlit("1");
        reveal_strlit("2");
        reveal_strlit("3");
        reveal_strlit("4");
        reveal_strlit("5");
        reveal_strlit("6");
        reveal_strlit("7");
        reveal_strlit("8");
        reveal_strlit("9");
    }
    match d {
        0 => "0",
        1 => "1",
        2 => "2",
        3 => "3",
        4 => "4",
        5 => "5",
        6 => "6",
        7 => "7",
        8 => "8",
        _ => "9",
    }
}

/// Decimal text of a number
pub fn decimal_string(n: u64) -> (s: String)
    ensures
        s@ == decimal_text(n as nat),
    decreases n,
{
    if n < 10 {
        digit_str(n).to_owned()
    } else {
        let mut s = decimal_string(n / 10);
        s.append(digit_str(n % 10));
        s
    }
}


/// The decimal text of a number is made of ASCII digits, ends with the
/// character code of its last digit, and reads back as that number
pub proof fn lemma_decimal_text_roundtrip(n: nat)
    ensures
        decimal_text(n).len() > 0,
        all_ascii_digits(decimal_text(n)),
        decimal_value(decimal_text(n)) == n,
        decimal_text(n).last() as int == 48 + n % 10,
    decreases n,
{
    let d = n % 10;
    let c = digit_char(d);
    assert((d + 48) as char as int == d + 48);
    assert(digit_value(c) == d);
    assert(is_ascii_digit(c));
    if n < 10 {
        let t = decimal_text(n);
        assert(t.drop_last() =~= Seq::<char>::empty());
        assert(t.last() == c);
        assert(d == n);
        assert(decimal_value(t.drop_last()) == 0);
        assert(decimal_value(t) == n);
    } else {
        lemma_decimal_text_roundtrip(n / 10);
        let p = decimal_text(n / 10);
        let t = decimal_text(n);
        assert(t == p.push(c));
        assert(t.drop_last() =~= p);
        assert forall|m: int| 0 <= m < t.len() implies is_ascii_digit(#[trigger] t[m]) by {
            if m < p.len() {
                assert(t[m] == p[m]);
            }
        }
        assert(decimal_value(t) == decimal_value(p) * 10 + d);
        assert((n / 10) * 10 + n % 10 == n) by (nonlinear_arith);
        assert(decimal_value(t) == n);
    }
}

} // verus!
