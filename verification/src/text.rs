//! Byte-level text helpers: substring and prefix search, decimal numerals.

use vstd::prelude::*;
use vstd::string::StringSliceAdditionalSpecFns;
use vstd::utf8::encode_utf8;

verus! {

/// `needle` occurs in `hay` starting at byte offset `i`.
pub open spec fn occurs_at(hay: Seq<u8>, needle: Seq<u8>, i: int) -> bool {
    &&& 0 <= i
    &&& i + needle.len() <= hay.len()
    &&& hay.subrange(i, i + needle.len()) == needle
}

/// `needle` occurs somewhere in `hay`.
pub open spec fn contains_bytes(hay: Seq<u8>, needle: Seq<u8>) -> bool {
    exists|i: int| occurs_at(hay, needle, i)
}

/// `hay` begins with `prefix`.
pub open spec fn starts_with_bytes(hay: Seq<u8>, prefix: Seq<u8>) -> bool {
    occurs_at(hay, prefix, 0)
}

fn matches_at(hay: &[u8], needle: &[u8], i: usize) -> (r: bool)
    requires
        i + needle@.len() <= hay@.len(),
    ensures
        r == occurs_at(hay@, needle@, i as int),
{
    let n = needle.len();
    let hay_len = hay.len();
    let mut k: usize = 0;
    while k < n
        invariant
            n == needle@.len(),
            i + n <= hay@.len(),
            hay_len == hay@.len(),
            k <= n,
            forall|j: int| 0 <= j < k ==> hay@[i + j] == needle@[j],
        decreases n - k,
    {
        if hay[i + k] != needle[k] {
            assert(hay@.subrange(i as int, i + n)[k as int] != needle@[k as int]);
            return false;
        }
        k = k + 1;
    }
    assert(hay@.subrange(i as int, i + n) =~= needle@);
    true
}

/// Whether `needle` occurs as a contiguous run of bytes inside `hay`.
pub fn slice_contains(hay: &[u8], needle: &[u8]) -> (r: bool)
    ensures
        r == contains_bytes(hay@, needle@),
{
    if needle.len() > hay.len() {
        return false;
    }
    let last = hay.len() - needle.len();
    let mut i: usize = 0;
    while i <= last
        invariant
            last + needle@.len() == hay@.len(),
            forall|j: int| 0 <= j < i ==> !occurs_at(hay@, needle@, j),
        decreases last + 1 - i,
    {
        if matches_at(hay, needle, i) {
            return true;
        }
        if i == last {
            return false;
        }
        i = i + 1;
    }
    false
}

/// Whether the UTF-8 text of `hay` contains the UTF-8 text of `needle`.
pub fn str_contains(hay: &str, needle: &str) -> (r: bool)
    ensures
        r == contains_bytes(hay.spec_bytes(), needle.spec_bytes()),
{
    slice_contains(hay.as_bytes(), needle.as_bytes())
}

/// Whether the UTF-8 text of `hay` begins with the UTF-8 text of `prefix`.
pub fn str_starts_with(hay: &str, prefix: &str) -> (r: bool)
    ensures
        r == starts_with_bytes(hay.spec_bytes(), prefix.spec_bytes()),
{
    let h = hay.as_bytes();
    let p = prefix.as_bytes();
    if p.len() > h.len() {
        return false;
    }
    matches_at(h, p, 0)
}


/// Whether two texts are the same.
pub fn str_eq(a: &str, b: &str) -> (r: bool)
    ensures
        r == (a@ == b@),
{
    proof {
        vstd::utf8::encode_utf8_decode_utf8(a@);
        vstd::utf8::encode_utf8_decode_utf8(b@);
    }
    let x = a.as_bytes();
    let y = b.as_bytes();
    if x.len() != y.len() {
        return false;
    }
    let r = matches_at(x, y, 0);
    assert(x@.subrange(0, y@.len() as int) =~= x@);
    r
}

/// An ASCII decimal digit.
pub open spec fn is_digit(b: u8) -> bool {
    48 <= b <= 57
}

/// Every byte of `s` is an ASCII decimal digit.
pub open spec fn all_digits(s: Seq<u8>) -> bool {
    forall|i: int| 0 <= i < s.len() ==> is_digit(#[trigger] s[i])
}

/// The value of a run of decimal digits, most significant first.
pub open spec fn digits_value(s: Seq<u8>) -> nat
    decreases s.len(),
{
    if s.len() == 0 {
        0
    } else {
        digits_value(s.drop_last()) * 10 + (s.last() - 48) as nat
    }
}

/// The digits of an unsigned numeral: one leading `+` is allowed.
pub open spec fn numeral_digits(s: Seq<u8>) -> Seq<u8> {
    if s.len() > 0 && s[0] == 43 {
        s.drop_first()
    } else {
        s
    }
}

/// `s` is the text of a `u32`: an optional `+`, then at least one decimal
/// digit, with a value that fits in 32 bits (no sign, no spaces).
pub open spec fn is_u32_numeral(s: Seq<u8>) -> bool {
    let d = numeral_digits(s);
    &&& d.len() > 0
    &&& all_digits(d)
    &&& digits_value(d) <= u32::MAX
}

/// The number that a numeral denotes.
pub open spec fn numeral_value(s: Seq<u8>) -> nat {
    digits_value(numeral_digits(s))
}

proof fn lemma_digits_value_prefix(s: Seq<u8>, k: int)
    requires
        all_digits(s),
        0 <= k <= s.len(),
    ensures
        digits_value(s.take(k)) <= digits_value(s),
    decreases s.len(),
{
    if k < s.len() {
        assert(s.take(k) =~= s.drop_last().take(k));
        lemma_digits_value_prefix(s.drop_last(), k);
    } else {
        assert(s.take(k) =~= s);
    }
}

/// Parses the decimal text of a `u32`, as `str::parse::<u32>` reads it:
/// `None` unless the text is an optional `+` followed by digits whose value
/// fits in 32 bits.
pub fn parse_u32(text: &str) -> (r: Option<u32>)
    ensures
        r is Some <==> is_u32_numeral(text.spec_bytes()),
        r matches Some(v) ==> v as nat == numeral_value(text.spec_bytes()),
{
    let bytes = text.as_bytes();
    let len = bytes.len();
    let start: usize = if len > 0 && bytes[0] == 43 { 1 } else { 0 };
    let ghost d = numeral_digits(bytes@);
    assert(d =~= bytes@.subrange(start as int, len as int));
    if start == len {
        return None;
    }
    let mut i: usize = start;
    while i < len
        invariant
            len == bytes@.len(),
            start <= i <= len,
            d =~= bytes@.subrange(start as int, len as int),
            d == numeral_digits(bytes@),
            bytes@ == text.spec_bytes(),
            forall|j: int| 0 <= j < i - start ==> is_digit(#[trigger] d[j]),
        decreases len - i,
    {
        if bytes[i] < 48 || bytes[i] > 57 {
            assert(!is_digit(d[i - start]));
            assert(!all_digits(d));
            return None;
        }
        i = i + 1;
    }
    assert(all_digits(d));
    let mut acc: u32 = 0;
    let mut i: usize = start;
    while i < len
        invariant
            len == bytes@.len(),
            start <= i <= len,
            d =~= bytes@.subrange(start as int, len as int),
            d == numeral_digits(bytes@),
            bytes@ == text.spec_bytes(),
            all_digits(d),
            acc as nat == digits_value(d.take(i - start)),
        decreases len - i,
    {
        assert(is_digit(d[i - start]));
        let digit: u32 = (bytes[i] - 48) as u32;
        assert(d.take(i + 1 - start).drop_last() =~= d.take(i - start));
        assert(d.take(i + 1 - start).last() == bytes@[i as int]);
        assert(digits_value(d.take(i + 1 - start)) == acc * 10 + digit);
        if acc > 429496729 || (acc == 429496729 && digit > 5) {
            proof {
                lemma_digits_value_prefix(d, i + 1 - start);
            }
            return None;
        }
        acc = acc * 10 + digit;
        i = i + 1;
    }
    assert(d.take(len - start) =~= d);
    Some(acc)
}


/// The character of a decimal digit `d` (`0` to `9`).
pub open spec fn digit_char(d: int) -> char {
    seq!['0', '1', '2', '3', '4', '5', '6', '7', '8', '9'][d]
}

/// The decimal text of `n`: its digits, most significant first, with no
/// leading zero (`0` itself is one digit).
pub open spec fn decimal_chars(n: nat) -> Seq<char>
    decreases n,
{
    if n < 10 {
        seq![digit_char(n as int)]
    } else {
        decimal_chars(n / 10).push(digit_char((n % 10) as int))
    }
}

fn digit_str(d: u32) -> (s: &'static str)
    requires
        d < 10,
    ensures
        s@ == seq![digit_char(d as int)],
{
    proof {
        reveal_strlit("0");
        reveal_strlit("1");
        reveal_strlit("2");
        reveal_strlit("3");
        reveal_strlit("4");
        reveal_strlit("5");
        reveal_strlit("6");
        reveal_strlit("7");
        reveal_strlit("8");
        reveal_strlit("9");
    }
    match d {
        0 => "0",
        1 => "1",
        2 => "2",
        3 => "3",
        4 => "4",
        5 => "5",
        6 => "6",
        7 => "7",
        8 => "8",
        _ => "9",
    }
}

/// Appends the decimal text of `n` to `out`.
pub fn push_decimal(out: &mut String, n: u32)
    ensures
        final(out)@ == old(out)@ + decimal_chars(n as nat),
    decreases n,
{
    if n >= 10 {
        push_decimal(out, n / 10);
    }
    out.append(digit_str(n % 10));
    assert(n >= 10 ==> decimal_chars(n as nat) == decimal_chars((n / 10) as nat).push(digit_char((n % 10) as int)));
}


proof fn lemma_digit_char_byte(d: int)
    requires
        0 <= d < 10,
    ensures
        digit_char(d) as u8 == 48 + d,
{
    let s = seq!['0', '1', '2', '3', '4', '5', '6', '7', '8', '9'];
    assert(s[0] == '0' && s[1] == '1' && s[2] == '2' && s[3] == '3' && s[4] == '4');
    assert(s[5] == '5' && s[6] == '6' && s[7] == '7' && s[8] == '8' && s[9] == '9');
}

proof fn lemma_decimal_chars_ascii(n: nat)
    ensures
        vstd::utf8::is_ascii_chars(decimal_chars(n)),
        decimal_chars(n).len() > 0,
        forall|i: int| 0 <= i < decimal_chars(n).len() ==> is_digit(#[trigger] decimal_chars(n)[i] as u8),
    decreases n,
{
    if n >= 10 {
        lemma_decimal_chars_ascii(n / 10);
    }
}

proof fn lemma_decimal_bytes_value(n: nat)
    ensures
        all_digits(encode_utf8(decimal_chars(n))),
        encode_utf8(decimal_chars(n)).len() > 0,
        encode_utf8(decimal_chars(n))[0] != 43,
        digits_value(encode_utf8(decimal_chars(n))) == n,
    decreases n,
{
    let c = decimal_chars(n);
    let b = encode_utf8(c);
    lemma_decimal_chars_ascii(n);
    vstd::utf8::is_ascii_chars_encode_utf8(c);
    assert(is_digit(c[0] as u8));
    if n >= 10 {
        let p = decimal_chars(n / 10);
        lemma_decimal_bytes_value(n / 10);
        lemma_decimal_chars_ascii(n / 10);
        vstd::utf8::is_ascii_chars_encode_utf8(p);
        assert(b.drop_last() =~= encode_utf8(p));
        assert(b.last() == c.last() as u8);
        assert(c.last() == digit_char((n % 10) as int));
        lemma_digit_char_byte((n % 10) as int);
        assert(digits_value(b) == digits_value(b.drop_last()) * 10 + (b.last() - 48) as nat);
        assert(digits_value(b) == (n / 10) * 10 + n % 10);
    } else {
        lemma_digit_char_byte(n as int);
        assert(c[0] == digit_char(n as int));
        assert(b.last() == c[0] as u8);
        assert(digits_value(b) == digits_value(b.drop_last()) * 10 + (b.last() - 48) as nat);
        assert(b.drop_last() =~= Seq::<u8>::empty());
    }
    assert forall|i: int| 0 <= i < b.len() implies is_digit(#[trigger] b[i]) by {
        assert(b[i] == c[i] as u8);
    }
}

/// How numerals read: a single leading `+` changes nothing, a leading zero
/// changes nothing, each further digit multiplies the value by ten and adds
/// itself, and text with no digit, or with any byte that is not a digit
/// after the optional `+`, is not a numeral.
pub proof fn lemma_numeral_reading(d: Seq<u8>, c: u8)
    requires
        d.len() > 0,
        all_digits(d),
        is_digit(c),
    ensures
        is_u32_numeral(seq![43u8] + d) == is_u32_numeral(d),
        numeral_value(seq![43u8] + d) == numeral_value(d),
        numeral_value(seq![48u8] + d) == numeral_value(d),
        numeral_value(d.push(c)) == numeral_value(d) * 10 + (c - 48),
        !is_u32_numeral(Seq::<u8>::empty()),
        !is_u32_numeral(seq![43u8]),
        !is_u32_numeral(seq![45u8] + d),
        !is_u32_numeral(d.push(32u8)),
{
    assert((seq![43u8] + d).drop_first() =~= d);
    assert(d.push(c).drop_last() =~= d);
    assert(!is_digit(45u8));
    assert(!is_digit((seq![45u8] + d)[0]));
    assert(!is_digit(d.push(32u8)[d.len() as int]));
    lemma_leading_zero(d);
}

proof fn lemma_leading_zero(d: Seq<u8>)
    ensures
        digits_value(seq![48u8] + d) == digits_value(d),
    decreases d.len(),
{
    let x = seq![48u8] + d;
    if d.len() == 0 {
        assert(x.drop_last() =~= Seq::<u8>::empty());
        assert(x.last() == 48u8);
        assert(digits_value(x) == digits_value(x.drop_last()) * 10 + (x.last() - 48) as nat);
    } else {
        assert(x.drop_last() =~= seq![48u8] + d.drop_last());
        assert(x.last() == d.last());
        lemma_leading_zero(d.drop_last());
        assert(digits_value(x) == digits_value(x.drop_last()) * 10 + (x.last() - 48) as nat);
    }
}

/// Substring search: the empty text occurs everywhere, a text occurs in
/// itself and in anything it begins or ends, a longer text never occurs in
/// a shorter one, and an occurrence in a part is an occurrence in the whole.
pub proof fn lemma_contains_bytes_laws(a: Seq<u8>, b: Seq<u8>, n: Seq<u8>)
    ensures
        contains_bytes(a, Seq::<u8>::empty()),
        contains_bytes(a, a),
        contains_bytes(a + b, a),
        contains_bytes(a + b, b),
        n.len() > a.len() ==> !contains_bytes(a, n),
        contains_bytes(a, n) ==> contains_bytes(a + b, n) && contains_bytes(b + a, n),
        starts_with_bytes(a + b, a),
        starts_with_bytes(a, n) ==> contains_bytes(a, n),
{
    assert(a.subrange(0, 0) =~= Seq::<u8>::empty());
    assert(occurs_at(a, Seq::<u8>::empty(), 0));
    assert(a.subrange(0, a.len() as int) =~= a);
    assert(occurs_at(a, a, 0));
    assert((a + b).subrange(0, a.len() as int) =~= a);
    assert(occurs_at(a + b, a, 0));
    assert((a + b).subrange(a.len() as int, (a + b).len() as int) =~= b);
    assert(occurs_at(a + b, b, a.len() as int));
    if contains_bytes(a, n) {
        let i = choose|i: int| occurs_at(a, n, i);
        assert((a + b).subrange(i, i + n.len()) =~= a.subrange(i, i + n.len()));
        assert(occurs_at(a + b, n, i));
        assert((b + a).subrange(b.len() + i, b.len() + i + n.len()) =~= a.subrange(i, i + n.len()));
        assert(occurs_at(b + a, n, b.len() + i));
    }
}

/// The decimal text of any `u32` reads back as the same number.
pub proof fn lemma_decimal_parses_back(n: u32)
    ensures
        is_u32_numeral(encode_utf8(decimal_chars(n as nat))),
        numeral_value(encode_utf8(decimal_chars(n as nat))) == n,
{
    lemma_decimal_bytes_value(n as nat);
}

} // verus!
