//! Texts, character by character: ASCII lower-casing, prefixes, splitting
//! and trimming, the lexicographic order, and decimal numbers in both
//! directions.

use vstd::prelude::*;
use vstd::std_specs::iter::IteratorSpec;
use vstd::utf8::*;

verus! {

/// `String::push` appends one character at the end of the string.
pub assume_specification[ String::push ](s: &mut String, c: char)
    ensures
        final(s)@ == old(s)@.push(c),
;

/// Why bytes are not UTF-8, as `core::str::from_utf8` tells it.
#[verifier::external_type_specification]
#[verifier::external_body]
pub struct ExUtf8Error(core::str::Utf8Error);

/// `core::str::from_utf8` succeeds exactly on well-formed UTF-8, and then
/// gives the text that the bytes write.
pub assume_specification[ core::str::from_utf8 ](v: &[u8]) -> (r: Result<
    &str,
    core::str::Utf8Error,
>)
    ensures
        r is Ok <==> valid_utf8(v@),
        r matches Ok(s) ==> s@ == decode_utf8(v@),
;

/// A text has at most four bytes in UTF-8 for each of its characters.
pub proof fn lemma_utf8_length(s: Seq<char>)
    ensures
        encode_utf8(s).len() <= 4 * s.len(),
    decreases s.len(),
{
    if s.len() > 0 {
        lemma_utf8_length(s.drop_first());
    }
}

/// The text that `bytes` write in UTF-8, if they are well-formed.
pub fn utf8_text(bytes: &[u8]) -> (r: Option<String>)
    ensures
        r is Some <==> valid_utf8(bytes@),
        r matches Some(s) ==> s@ == decode_utf8(bytes@),
{
    match core::str::from_utf8(bytes) {
        Ok(s) => Some(s.to_owned()),
        Err(_) => None,
    }
}

/// Whether `c` is one of the ASCII capital letters `A` to `Z`.
pub open spec fn is_ascii_upper(c: char) -> bool {
    'A' <= c && c <= 'Z'
}

/// The ASCII lower-case form of a character: `A`..`Z` become `a`..`z`,
/// every other character is unchanged.
pub open spec fn ascii_lower_char(c: char) -> char {
    if is_ascii_upper(c) {
        ((c as u8 + 32) as u8) as char
    } else {
        c
    }
}

/// The ASCII lower-case form of a text, character by character.
pub open spec fn ascii_lower(s: Seq<char>) -> Seq<char> {
    Seq::new(s.len(), |i: int| ascii_lower_char(s[i]))
}

/// The ASCII lower-case form of `c`.
pub fn to_ascii_lower_char(c: char) -> (r: char)
    ensures
        r == ascii_lower_char(c),
{
    if 'A' <= c && c <= 'Z' {
        ((c as u8) + 32) as char
    } else {
        c
    }
}

/// The ASCII lower-case form of `s`.
pub fn ascii_lowercase(s: &str) -> (r: String)
    ensures
        r@ == ascii_lower(s@),
{
    let mut r = String::new();
    for c in it: s.chars()
        invariant
            it.seq() == s@,
            r@ == ascii_lower(s@).take(it.index() as int),
    {
        r.push(to_ascii_lower_char(c));
    }
    r
}

/// Whether `p` is a prefix of `s`.
pub open spec fn has_prefix(s: Seq<char>, p: Seq<char>) -> bool {
    p.len() <= s.len() && s.take(p.len() as int) == p
}

/// Whether `s` starts with `p`.
pub fn str_starts_with(s: &str, p: &str) -> (r: bool)
    ensures
        r == has_prefix(s@, p@),
{
    let mut is = s.chars();
    let mut ip = p.chars();
    loop
        invariant
            is.obeys_prophetic_iter_laws(),
            ip.obeys_prophetic_iter_laws(),
            is.remaining().len() <= s@.len(),
            ip.remaining().len() <= p@.len(),
            s@.len() - is.remaining().len() == p@.len() - ip.remaining().len(),
            s@.take(s@.len() - is.remaining().len()) == p@.take(p@.len() - ip.remaining().len()),
            s@.skip(s@.len() - is.remaining().len()) == is.remaining(),
            p@.skip(p@.len() - ip.remaining().len()) == ip.remaining(),
            ip.decrease() is Some,
        decreases ip.decrease()->0,
    {
        let ghost n = p@.len() - ip.remaining().len();
        let ghost rs = is.remaining();
        let ghost rp = ip.remaining();
        match ip.next() {
            None => {
                assert(p@.take(n) == p@);
                return true;
            },
            Some(cp) => {
                assert(p@[n] == cp);
                match is.next() {
                    None => {
                        return false;
                    },
                    Some(cs) => {
                        assert(s@[n] == cs);
                        if cs != cp {
                            assert(p@.len() <= s@.len() ==> s@.take(p@.len() as int)[n]
                                != p@[n]);
                            return false;
                        }
                        assert(s@.take(n + 1) == s@.take(n).push(cs));
                        assert(p@.take(n + 1) == p@.take(n).push(cp));
                        assert(s@.skip(n + 1) == rs.drop_first());
                        assert(p@.skip(n + 1) == rp.drop_first());
                    },
                }
            },
        }
    }
}

/// The part of `s` before the first `c`, or all of `s` where it holds no `c`.
pub open spec fn text_before(s: Seq<char>, c: char) -> Seq<char>
    decreases s.len(),
{
    if s.len() == 0 || s[0] == c {
        Seq::empty()
    } else {
        seq![s[0]] + text_before(s.drop_first(), c)
    }
}

/// `text_before(s, c)` is the longest prefix of `s` that holds no `c`.
pub proof fn lemma_text_before(s: Seq<char>, c: char)
    ensures
        has_prefix(s, text_before(s, c)),
        !text_before(s, c).contains(c),
        text_before(s, c).len() < s.len() ==> s[text_before(s, c).len() as int] == c,
    decreases s.len(),
{
    let p = text_before(s, c);
    if s.len() == 0 || s[0] == c {
        assert(s.take(0) =~= p);
    } else {
        let t = s.drop_first();
        let q = text_before(t, c);
        lemma_text_before(t, c);
        assert(s.take(p.len() as int) =~= seq![s[0]] + t.take(q.len() as int));
        if p.contains(c) {
            let i = choose|i: int| 0 <= i < p.len() && p[i] == c;
            assert(q[i - 1] == c);
        }
        if p.len() < s.len() {
            assert(s[p.len() as int] == t[q.len() as int]);
        }
    }
}

/// The part of `s` before the first `c`, or all of `s` where it holds no `c`.
pub fn str_before(s: &str, c: char) -> (r: String)
    ensures
        r@ == text_before(s@, c),
{
    let mut r = String::new();
    let mut it = s.chars();
    assert(s@.take(0) =~= Seq::<char>::empty());
    loop
        invariant
            it.obeys_prophetic_iter_laws(),
            it.remaining().len() <= s@.len(),
            s@.skip(s@.len() - it.remaining().len()) == it.remaining(),
            r@ == s@.take(s@.len() - it.remaining().len()),
            text_before(s@, c) == r@ + text_before(it.remaining(), c),
            it.decrease() is Some,
        decreases it.decrease()->0,
    {
        let ghost n = s@.len() - it.remaining().len();
        let ghost rest = it.remaining();
        match it.next() {
            None => {
                return r;
            },
            Some(x) => {
                if x == c {
                    return r;
                }
                assert(s@.take(n + 1) == s@.take(n).push(x));
                assert(s@.skip(n + 1) == rest.drop_first());
                assert(r@ + (seq![x] + text_before(rest.drop_first(), c)) =~= r@.push(x)
                    + text_before(rest.drop_first(), c));
                r.push(x);
            },
        }
    }
}

/// Whether `s` holds the character `c`.
pub fn str_contains_char(s: &str, c: char) -> (r: bool)
    ensures
        r == s@.contains(c),
{
    let mut r = false;
    for x in it: s.chars()
        invariant
            it.seq() == s@,
            r == s@.take(it.index() as int).contains(c),
    {
        proof {
            let i = it.index() as int;
            let t = s@.take(i + 1);
            assert(t[i] == x);
            assert(t =~= s@.take(i).push(x));
            if s@.take(i).contains(c) {
                let j = choose|j: int| 0 <= j < i && s@.take(i)[j] == c;
                assert(t[j] == c);
            }
            if t.contains(c) && x != c {
                let j = choose|j: int| 0 <= j < t.len() && t[j] == c;
                assert(s@.take(i)[j] == c);
            }
        }
        if x == c {
            r = true;
        }
    }
    assert(s@.take(s@.len() as int) =~= s@);
    r
}

/// `s` without its first character, where that is `c`; else `s`.
pub open spec fn without_leading(s: Seq<char>, c: char) -> Seq<char> {
    if s.len() > 0 && s[0] == c {
        s.drop_first()
    } else {
        s
    }
}

/// `s` without its last character, where that is `c`; else `s`.
pub open spec fn without_trailing(s: Seq<char>, c: char) -> Seq<char> {
    if s.len() > 0 && s.last() == c {
        s.drop_last()
    } else {
        s
    }
}

/// `s` without its first character, where that is `c`; else `s`.
pub fn strip_leading(s: &str, c: char) -> (r: &str)
    ensures
        r@ == without_leading(s@, c),
{
    let n = s.unicode_len();
    if n > 0 && s.get_char(0) == c {
        s.substring_char(1, n)
    } else {
        s
    }
}

/// `s` without its last character, where that is `c`; else `s`.
pub fn strip_trailing(s: &str, c: char) -> (r: &str)
    ensures
        r@ == without_trailing(s@, c),
{
    let n = s.unicode_len();
    if n > 0 && s.get_char(n - 1) == c {
        s.substring_char(0, n - 1)
    } else {
        s
    }
}

/// `s` without the characters `c` that it starts with.
pub open spec fn without_all_leading(s: Seq<char>, c: char) -> Seq<char>
    decreases s.len(),
{
    if s.len() > 0 && s[0] == c {
        without_all_leading(s.drop_first(), c)
    } else {
        s
    }
}

/// `s` without the characters `c` that it ends with.
pub open spec fn without_all_trailing(s: Seq<char>, c: char) -> Seq<char>
    decreases s.len(),
{
    if s.len() > 0 && s.last() == c {
        without_all_trailing(s.drop_last(), c)
    } else {
        s
    }
}

/// `s` without the characters `c` that it starts with.
pub fn strip_all_leading(s: &str, c: char) -> (r: &str)
    ensures
        r@ == without_all_leading(s@, c),
{
    let n = s.unicode_len();
    let mut i: usize = 0;
    assert(s@.subrange(0, n as int) =~= s@);
    while i < n && s.get_char(i) == c
        invariant
            i <= n,
            n == s@.len(),
            without_all_leading(s@, c) == without_all_leading(s@.subrange(i as int, n as int), c),
        decreases n - i,
    {
        assert(s@.subrange(i as int, n as int).drop_first() =~= s@.subrange(i + 1, n as int));
        i += 1;
    }
    s.substring_char(i, n)
}

/// `s` without the characters `c` that it ends with.
pub fn strip_all_trailing(s: &str, c: char) -> (r: &str)
    ensures
        r@ == without_all_trailing(s@, c),
{
    let mut n = s.unicode_len();
    assert(s@.subrange(0, n as int) =~= s@);
    while n > 0 && s.get_char(n - 1) == c
        invariant
            n <= s@.len(),
            without_all_trailing(s@, c) == without_all_trailing(s@.subrange(0, n as int), c),
        decreases n,
    {
        assert(s@.subrange(0, n as int).drop_last() =~= s@.subrange(0, n - 1));
        n -= 1;
    }
    s.substring_char(0, n)
}

/// The strict lexicographic order on texts, character by character, a
/// character being ordered by its code point. A proper prefix comes before
/// the text it is a prefix of.
pub open spec fn lex_lt(a: Seq<char>, b: Seq<char>) -> bool
    decreases a.len(),
{
    if b.len() == 0 {
        false
    } else if a.len() == 0 {
        true
    } else if a[0] != b[0] {
        a[0] < b[0]
    } else {
        lex_lt(a.drop_first(), b.drop_first())
    }
}

/// No text comes before itself.
pub proof fn lemma_lex_lt_irreflexive(a: Seq<char>)
    ensures
        !lex_lt(a, a),
    decreases a.len(),
{
    if a.len() > 0 {
        lemma_lex_lt_irreflexive(a.drop_first());
    }
}

/// Of two texts, at most one comes before the other.
pub proof fn lemma_lex_lt_asymmetric(a: Seq<char>, b: Seq<char>)
    ensures
        !(lex_lt(a, b) && lex_lt(b, a)),
    decreases a.len(),
{
    if a.len() > 0 && b.len() > 0 && a[0] == b[0] {
        lemma_lex_lt_asymmetric(a.drop_first(), b.drop_first());
    }
}

/// A text that comes before a second one comes before every text that the
/// second one comes before.
pub proof fn lemma_lex_lt_transitive(a: Seq<char>, b: Seq<char>, c: Seq<char>)
    requires
        lex_lt(a, b),
        lex_lt(b, c),
    ensures
        lex_lt(a, c),
    decreases a.len(),
{
    if a.len() > 0 && a[0] == b[0] && b[0] == c[0] {
        lemma_lex_lt_transitive(a.drop_first(), b.drop_first(), c.drop_first());
    }
}

/// Of two texts, one comes before the other or they are the same text.
pub proof fn lemma_lex_lt_total(a: Seq<char>, b: Seq<char>)
    ensures
        lex_lt(a, b) || lex_lt(b, a) || a == b,
    decreases a.len(),
{
    if a.len() == 0 || b.len() == 0 {
        if a.len() == 0 && b.len() == 0 {
            assert(a =~= b);
        }
    } else if a[0] == b[0] {
        lemma_lex_lt_total(a.drop_first(), b.drop_first());
        if a.drop_first() == b.drop_first() {
            assert(a =~= seq![a[0]] + a.drop_first());
            assert(b =~= seq![b[0]] + b.drop_first());
        }
    }
}

/// How one text stands to another in the lexicographic order.
#[derive(Clone, Copy, Debug, PartialEq, Eq, Structural)]
pub enum TextOrder {
    Before,
    Same,
    After,
}

/// The place of `a` relative to `b` in the lexicographic order.
pub open spec fn text_order(a: Seq<char>, b: Seq<char>) -> TextOrder {
    if a == b {
        TextOrder::Same
    } else if lex_lt(a, b) {
        TextOrder::Before
    } else {
        TextOrder::After
    }
}

/// Whether `c` is one of the digits `0` to `9`.
pub open spec fn is_digit(c: char) -> bool {
    '0' <= c && c <= '9'
}

/// Whether every character of `s` is a digit.
pub open spec fn all_digits(s: Seq<char>) -> bool {
    forall|i: int| 0 <= i < s.len() ==> is_digit(#[trigger] s[i])
}

/// The number that the digits of `s` write in decimal.
pub open spec fn digits_value(s: Seq<char>) -> nat
    decreases s.len(),
{
    if s.len() == 0 {
        0
    } else {
        digits_value(s.drop_last()) * 10 + (s.last() as u8 - 48) as nat
    }
}

/// The number that `s` writes, where `s` is one or more digits that write a
/// number up to `limit`.
pub open spec fn parsed_digits(s: Seq<char>, limit: u64) -> Option<u64> {
    if s.len() > 0 && all_digits(s) && digits_value(s) <= limit {
        Some(digits_value(s) as u64)
    } else {
        None
    }
}

/// The number that `s` writes in decimal, as `str::parse` reads a `u64`:
/// one or more digits, a `+` before them or not, that write a number which
/// fits.
pub open spec fn parsed_u64(s: Seq<char>) -> Option<u64> {
    parsed_digits(without_leading(s, '+'), u64::MAX)
}

/// The number that `s` writes in decimal, as `str::parse` reads an `i64`:
/// one or more digits, a `+` or a `-` before them or not, that write a
/// number which fits.
pub open spec fn parsed_i64(s: Seq<char>) -> Option<i64> {
    if s.len() > 0 && s[0] == '-' {
        match parsed_digits(s.drop_first(), 0x8000_0000_0000_0000) {
            Some(magnitude) => Some((-(magnitude as int)) as i64),
            None => None,
        }
    } else {
        match parsed_digits(without_leading(s, '+'), 0x7fff_ffff_ffff_ffff) {
            Some(value) => Some(value as i64),
            None => None,
        }
    }
}

/// A sequence of digits writes a number that is no smaller than the one
/// that a prefix of it writes.
proof fn lemma_digits_value_monotonic(s: Seq<char>, k: int)
    requires
        0 <= k <= s.len(),
    ensures
        digits_value(s.take(k)) <= digits_value(s),
    decreases s.len() - k,
{
    if k == s.len() {
        assert(s.take(k) =~= s);
    } else {
        lemma_digits_value_monotonic(s, k + 1);
        assert(s.take(k + 1).drop_last() =~= s.take(k));
    }
}

/// Reads `s` as one or more digits that write a number up to `limit`.
pub fn parse_digits(s: &str, limit: u64) -> (r: Option<u64>)
    ensures
        r == parsed_digits(s@, limit),
{
    let mut value: u64 = 0;
    let mut count: usize = 0;
    let mut any: bool = false;
    for c in it: s.chars()
        invariant
            it.seq() == s@,
            any == (it.index() > 0),
            all_digits(s@.take(it.index() as int)),
            value == digits_value(s@.take(it.index() as int)),
            value <= limit,
    {
        let ghost i = it.index() as int;
        proof {
            assert(s@.take(i + 1).drop_last() =~= s@.take(i));
            assert(s@.take(i + 1).last() == c);
        }
        if !('0' <= c && c <= '9') {
            assert(!is_digit(s@[i]));
            return None;
        }
        let d: u64 = ((c as u8) - 48) as u64;
        if d > limit || value > (limit - d) / 10 {
            proof {
                assert(digits_value(s@.take(i + 1)) == value * 10 + d);
                assert(value * 10 + d > limit);
                lemma_digits_value_monotonic(s@, i + 1);
            }
            return None;
        }
        assert(forall|j: int| 0 <= j < i + 1 ==> is_digit(#[trigger] s@.take(i + 1)[j])) by {
            assert forall|j: int| 0 <= j < i + 1 implies is_digit(#[trigger] s@.take(i + 1)[j]) by {
                if j < i {
                    assert(s@.take(i + 1)[j] == s@.take(i)[j]);
                }
            }
        }
        value = value * 10 + d;
        any = true;
    }
    assert(s@.take(s@.len() as int) =~= s@);
    if any {
        Some(value)
    } else {
        None
    }
}

/// Reads `s` as a `u64` in decimal.
pub fn parse_u64(s: &str) -> (r: Option<u64>)
    ensures
        r == parsed_u64(s@),
{
    parse_digits(strip_leading(s, '+'), u64::MAX)
}

/// Reads `s` as an `i64` in decimal.
pub fn parse_i64(s: &str) -> (r: Option<i64>)
    ensures
        r == parsed_i64(s@),
{
    let n = s.unicode_len();
    if n > 0 && s.get_char(0) == '-' {
        match parse_digits(s.substring_char(1, n), 0x8000_0000_0000_0000) {
            Some(magnitude) => {
                if magnitude == 0x8000_0000_0000_0000 {
                    Some(i64::MIN)
                } else {
                    Some(-(magnitude as i64))
                }
            },
            None => None,
        }
    } else {
        match parse_digits(strip_leading(s, '+'), 0x7fff_ffff_ffff_ffff) {
            Some(value) => Some(value as i64),
            None => None,
        }
    }
}

/// Whether `a` and `b` are the same text.
pub fn str_eq(a: &str, b: &str) -> (r: bool)
    ensures
        r == (a@ == b@),
{
    match compare_str(a, b) {
        TextOrder::Same => true,
        _ => false,
    }
}

/// The character that writes the digit `d`, for `d` below ten.
pub open spec fn digit_char(d: int) -> char {
    ((d + 48) as u8) as char
}

/// The decimal digits of a natural number, most significant first, with no
/// leading zero; zero is written `0`.
pub open spec fn decimal_digits(n: nat) -> Seq<char>
    decreases n,
{
    if n < 10 {
        seq![digit_char(n as int)]
    } else {
        decimal_digits(n / 10).push(digit_char((n % 10) as int))
    }
}

/// The decimal text of an integer: a minus sign for a negative number, then
/// the digits of its magnitude.
pub open spec fn decimal(n: int) -> Seq<char> {
    if n < 0 {
        seq!['-'] + decimal_digits((-n) as nat)
    } else {
        decimal_digits(n as nat)
    }
}

/// The decimal digits of `n`.
pub fn u64_to_chars(n: u64) -> (v: Vec<char>)
    ensures
        v@ == decimal_digits(n as nat),
{
    // Least significant digit first.
    let mut rev: Vec<char> = Vec::new();
    let mut m: u64 = n;
    while m >= 10
        invariant
            decimal_digits(n as nat) == decimal_digits(m as nat) + rev@.reverse(),
        decreases m,
    {
        let d: u8 = (m % 10) as u8;
        let c: char = (d + 48) as char;
        proof {
            let r0 = rev@;
            assert(decimal_digits(m as nat) == decimal_digits((m / 10) as nat).push(c));
            assert(r0.push(c).reverse() =~= seq![c] + r0.reverse());
            assert(decimal_digits((m / 10) as nat).push(c) + r0.reverse() =~= decimal_digits(
                (m / 10) as nat,
            ) + (seq![c] + r0.reverse()));
        }
        rev.push(c);
        m = m / 10;
    }
    let c: char = ((m as u8) + 48) as char;
    proof {
        let r0 = rev@;
        assert(decimal_digits(m as nat) == seq![c]);
        assert(r0.push(c).reverse() =~= seq![c] + r0.reverse());
    }
    rev.push(c);
    let mut v: Vec<char> = Vec::new();
    let mut i: usize = rev.len();
    while i > 0
        invariant
            i <= rev.len(),
            v@ == rev@.reverse().take(rev.len() - i),
        decreases i,
    {
        i -= 1;
        proof {
            let k = rev.len() - i - 1;
            assert(rev@.reverse().take(k + 1) == rev@.reverse().take(k).push(rev@[i as int]));
        }
        v.push(rev[i]);
    }
    assert(rev@.reverse().take(rev.len() as int) == rev@.reverse());
    v
}

/// The decimal text of `n`.
pub fn u64_to_string(n: u64) -> (s: String)
    ensures
        s@ == decimal(n as int),
{
    let digits = u64_to_chars(n);
    let mut s = String::new();
    let mut i: usize = 0;
    while i < digits.len()
        invariant
            i <= digits.len(),
            s@ == digits@.take(i as int),
        decreases digits.len() - i,
    {
        proof {
            assert(digits@.take(i + 1) == digits@.take(i as int).push(digits@[i as int]));
        }
        s.push(digits[i]);
        i += 1;
    }
    assert(digits@.take(digits.len() as int) == digits@);
    s
}

/// The decimal text of `n`.
pub fn i64_to_string(n: i64) -> (s: String)
    ensures
        s@ == decimal(n as int),
{
    let mut s = String::new();
    let magnitude: u64 = if n < 0 {
        s.push('-');
        ((-(n + 1)) as u64) + 1
    } else {
        n as u64
    };
    let digits = u64_to_chars(magnitude);
    let mut i: usize = 0;
    while i < digits.len()
        invariant
            i <= digits.len(),
            s@ == (if n < 0 {
                seq!['-']
            } else {
                Seq::<char>::empty()
            }) + digits@.take(i as int),
        decreases digits.len() - i,
    {
        proof {
            assert(digits@.take(i + 1) == digits@.take(i as int).push(digits@[i as int]));
        }
        s.push(digits[i]);
        i += 1;
    }
    assert(digits@.take(digits.len() as int) == digits@);
    s
}

/// The place of `a` relative to `b` in the lexicographic order.
pub fn compare_str(a: &str, b: &str) -> (r: TextOrder)
    ensures
        r == text_order(a@, b@),
        r == TextOrder::After ==> lex_lt(b@, a@),
{
    let mut ia = a.chars();
    let mut ib = b.chars();
    loop
        invariant
            ia.obeys_prophetic_iter_laws(),
            ib.obeys_prophetic_iter_laws(),
            ia.remaining().len() <= a@.len(),
            ib.remaining().len() <= b@.len(),
            a@.len() - ia.remaining().len() == b@.len() - ib.remaining().len(),
            a@.take(a@.len() - ia.remaining().len()) == b@.take(b@.len() - ib.remaining().len()),
            a@.skip(a@.len() - ia.remaining().len()) == ia.remaining(),
            b@.skip(b@.len() - ib.remaining().len()) == ib.remaining(),
            lex_lt(a@, b@) == lex_lt(ia.remaining(), ib.remaining()),
            lex_lt(b@, a@) == lex_lt(ib.remaining(), ia.remaining()),
            ia.decrease() is Some,
        decreases ia.decrease()->0,
    {
        let ghost ra = ia.remaining();
        let ghost rb = ib.remaining();
        let ghost n = a@.len() - ra.len();
        let x = ia.next();
        let y = ib.next();
        match (x, y) {
            (None, None) => {
                assert(a@.take(n) == a@);
                assert(b@.take(n) == b@);
                proof {
                    lemma_lex_lt_irreflexive(a@);
                }
                return TextOrder::Same;
            },
            (None, Some(_)) => {
                assert(a@.len() != b@.len());
                return TextOrder::Before;
            },
            (Some(_), None) => {
                assert(a@.len() != b@.len());
                return TextOrder::After;
            },
            (Some(cx), Some(cy)) => {
                assert(a@[n] == cx);
                assert(b@[n] == cy);
                if cx != cy {
                    assert(a@ != b@);
                    if cx < cy {
                        return TextOrder::Before;
                    } else {
                        return TextOrder::After;
                    }
                }
                assert(a@.take(n + 1) == a@.take(n).push(cx));
                assert(b@.take(n + 1) == b@.take(n).push(cy));
                assert(a@.skip(n + 1) == ra.drop_first());
                assert(b@.skip(n + 1) == rb.drop_first());
            },
        }
    }
}

} // verus!
