//! Text encodings that the launcher hands to Windows or reads back from
//! it: NUL-terminated UTF-16, lossy UTF-16 decoding, decimal and
//! hexadecimal numerals, and the decimal parsing of `u32::from_str`.
use vstd::prelude::*;
use vstd::utf8::is_scalar;
use crate::text::{char_is_ascii_digit, chars_of, is_ascii_digit, push_char};

verus! {

// ---------------------------------------------------------------------------
// UTF-16
// ---------------------------------------------------------------------------

pub open spec fn is_high_surrogate(u: u16) -> bool {
    0xD800 <= u <= 0xDBFF
}

pub open spec fn is_low_surrogate(u: u16) -> bool {
    0xDC00 <= u <= 0xDFFF
}

/// The UTF-16 code units of one character.
pub open spec fn utf16_units(c: char) -> Seq<u16> {
    let v = c as u32;
    if v < 0x10000 {
        seq![v as u16]
    } else {
        let w = v - 0x10000;
        seq![(0xD800 + w / 0x400) as u16, (0xDC00 + w % 0x400) as u16]
    }
}

/// `str::encode_utf16`.
pub open spec fn encode_utf16(s: Seq<char>) -> Seq<u16>
    decreases s.len(),
{
    if s.len() == 0 {
        Seq::empty()
    } else {
        utf16_units(s[0]) + encode_utf16(s.drop_first())
    }
}

/// The NUL-terminated UTF-16 form that Win32 `W` functions take.
pub open spec fn wide_text(s: Seq<char>) -> Seq<u16> {
    encode_utf16(s).push(0)
}

/// The scalar value that a surrogate pair stands for.
pub open spec fn surrogate_pair_value(high: u16, low: u16) -> u32 {
    (0x10000 + (high - 0xD800) * 0x400 + (low - 0xDC00)) as u32
}

pub open spec fn replacement_char() -> char {
    '\u{FFFD}'
}

/// `String::from_utf16_lossy`: code units decoded as UTF-16, each unpaired
/// surrogate replaced by U+FFFD.
pub open spec fn decode_utf16_lossy(s: Seq<u16>) -> Seq<char>
    decreases s.len(),
{
    if s.len() == 0 {
        Seq::empty()
    } else if !is_high_surrogate(s[0]) && !is_low_surrogate(s[0]) {
        seq![(s[0] as u32) as char] + decode_utf16_lossy(s.drop_first())
    } else if is_high_surrogate(s[0]) && s.len() >= 2 && is_low_surrogate(s[1]) {
        seq![surrogate_pair_value(s[0], s[1]) as char] + decode_utf16_lossy(
            s.subrange(2, s.len() as int),
        )
    } else {
        seq![replacement_char()] + decode_utf16_lossy(s.drop_first())
    }
}

/// The units before the first NUL, or all of them when there is none.
pub open spec fn before_nul(s: Seq<u16>) -> Seq<u16>
    decreases s.len(),
{
    if s.len() == 0 {
        s
    } else if s[0] == 0 {
        Seq::empty()
    } else {
        seq![s[0]] + before_nul(s.drop_first())
    }
}

pub proof fn lemma_encode_utf16_push(s: Seq<char>, c: char)
    ensures
        encode_utf16(s.push(c)) == encode_utf16(s) + utf16_units(c),
    decreases s.len(),
{
    if s.len() == 0 {
        assert(s.push(c).drop_first() =~= Seq::<char>::empty());
        assert(encode_utf16(Seq::<char>::empty()) =~= Seq::<u16>::empty());
        assert(encode_utf16(s.push(c)) =~= utf16_units(c) + Seq::<u16>::empty());
        assert(encode_utf16(s) + utf16_units(c) =~= Seq::<u16>::empty() + utf16_units(c));
    } else {
        lemma_encode_utf16_push(s.drop_first(), c);
        assert(s.push(c).drop_first() =~= s.drop_first().push(c));
        assert(encode_utf16(s.push(c)) =~= utf16_units(s[0]) + (encode_utf16(s.drop_first())
            + utf16_units(c)));
    }
}

/// The encoding of a concatenation is the concatenation of the encodings.
pub proof fn lemma_encode_utf16_concat(a: Seq<char>, b: Seq<char>)
    ensures
        encode_utf16(a + b) == encode_utf16(a) + encode_utf16(b),
    decreases a.len(),
{
    if a.len() == 0 {
        assert(a + b =~= b);
        assert(encode_utf16(a) =~= Seq::<u16>::empty());
        assert(encode_utf16(a) + encode_utf16(b) =~= encode_utf16(b));
    } else {
        lemma_encode_utf16_concat(a.drop_first(), b);
        assert((a + b).drop_first() =~= a.drop_first() + b);
        assert(encode_utf16(a + b) =~= utf16_units(a[0]) + (encode_utf16(a.drop_first())
            + encode_utf16(b)));
    }
}

/// Decoding what was encoded gives back the text.
pub proof fn lemma_decode_encode_utf16(s: Seq<char>)
    ensures
        decode_utf16_lossy(encode_utf16(s)) == s,
    decreases s.len(),
{
    if s.len() > 0 {
        let c = s[0];
        let v = c as u32;
        let rest = encode_utf16(s.drop_first());
        let e = encode_utf16(s);
        lemma_decode_encode_utf16(s.drop_first());
        vstd::utf8::char_is_scalar(c);
        vstd::utf8::char_u32_cast(c, v);
        if v < 0x10000 {
            assert(e.drop_first() =~= rest);
            assert(e[0] == v as u16);
            assert(((e[0] as u32) as char) == c);
        } else {
            let w = v - 0x10000;
            assert(w / 0x400 < 0x400 && w % 0x400 < 0x400 && (w / 0x400) * 0x400 + w % 0x400 == w)
                by (nonlinear_arith)
                requires
                    0 <= w < 0x100000,
            ;
            assert(e.subrange(2, e.len() as int) =~= rest);
            assert(surrogate_pair_value(e[0], e[1]) == v);
        }
        assert(s =~= seq![c] + s.drop_first());
    }
}

/// A text without NUL characters encodes to units without NUL.
pub proof fn lemma_encode_utf16_nul_free(s: Seq<char>)
    requires
        forall|i: int| 0 <= i < s.len() ==> (#[trigger] s[i] as u32) != 0,
    ensures
        before_nul(encode_utf16(s)) == encode_utf16(s),
        before_nul(wide_text(s)) == encode_utf16(s),
    decreases s.len(),
{
    lemma_before_nul_append(encode_utf16(s), seq![0u16]);
    if s.len() > 0 {
        assert forall|i: int| 0 <= i < s.drop_first().len() implies (#[trigger] s.drop_first()[i]
            as u32) != 0 by {
            assert(s.drop_first()[i] == s[i + 1]);
        }
        lemma_encode_utf16_nul_free(s.drop_first());
        let u = utf16_units(s[0]);
        let rest = encode_utf16(s.drop_first());
        assert(s[0] as u32 != 0);
        lemma_before_nul_append(u, rest);
        let e = Seq::<u16>::empty();
        assert(before_nul(e) == e);
        if (s[0] as u32) < 0x10000 {
            assert(u[0] != 0);
            assert(u.drop_first() =~= e);
            assert(before_nul(u) =~= seq![u[0]] + before_nul(u.drop_first()));
            assert(before_nul(u) =~= u);
        } else {
            let t = u.drop_first();
            vstd::utf8::char_is_scalar(s[0]);
            assert(u[0] != 0 && u[1] != 0);
            assert(t =~= seq![u[1]]);
            assert(t.drop_first() =~= e);
            assert(before_nul(t) =~= seq![t[0]] + before_nul(t.drop_first()));
            assert(before_nul(u) =~= seq![u[0]] + before_nul(t));
            assert(before_nul(u) =~= u);
        }
    } else {
        assert(wide_text(s) =~= seq![0u16]);
    }
}

/// Cutting at the first NUL distributes over a concatenation whose first
/// part holds no NUL.
pub proof fn lemma_before_nul_append(a: Seq<u16>, b: Seq<u16>)
    ensures
        before_nul(a) == a ==> before_nul(a + b) == a + before_nul(b),
        b.len() > 0 && b[0] == 0 && before_nul(a) == a ==> before_nul(a + b) == a,
    decreases a.len(),
{
    if a.len() > 0 {
        lemma_before_nul_append(a.drop_first(), b);
        assert((a + b).drop_first() =~= a.drop_first() + b);
        if before_nul(a) == a {
            assert(a[0] != 0) by {
                if a[0] == 0 {
                    assert(before_nul(a).len() == 0);
                }
            }
            assert(before_nul(a.drop_first()) =~= a.drop_first()) by {
                assert(before_nul(a) =~= seq![a[0]] + before_nul(a.drop_first()));
                assert(before_nul(a).drop_first() =~= before_nul(a.drop_first()));
            }
            assert(a =~= seq![a[0]] + a.drop_first());
            assert(before_nul(a + b) =~= seq![a[0]] + (a.drop_first() + before_nul(b)));
        }
    } else {
        assert(a + b =~= b);
        if b.len() > 0 && b[0] == 0 {
            assert(before_nul(a + b) =~= a);
        }
    }
}

/// `char::from_u32`: the character with the given scalar value, if any.
#[verifier::external_body]
fn char_from_u32(v: u32) -> (r: Option<char>)
    ensures
        r is Some <==> is_scalar(v),
        r matches Some(c) ==> c as u32 == v,
{
    char::from_u32(v)
}

fn scalar_to_char(v: u32) -> (r: char)
    requires
        is_scalar(v),
    ensures
        r == v as char,
{
    match char_from_u32(v) {
        Some(c) => {
            proof {
                vstd::utf8::char_u32_cast(c, v);
            }
            c
        },
        None => '\u{FFFD}',
    }
}

/// The UTF-16 code units of `value` (`str::encode_utf16`).
pub fn encode_utf16_str(value: &str) -> (r: Vec<u16>)
    ensures
        r@ == encode_utf16(value@),
{
    let chars = chars_of(value);
    let mut out: Vec<u16> = Vec::new();
    let mut i: usize = 0;
    while i < chars.len()
        invariant
            0 <= i <= chars.len(),
            out@ == encode_utf16(chars@.take(i as int)),
        decreases chars.len() - i,
    {
        let c = chars[i];
        let v = c as u32;
        proof {
            lemma_encode_utf16_push(chars@.take(i as int), c);
            assert(chars@.take(i + 1) =~= chars@.take(i as int).push(c));
        }
        if v < 0x10000 {
            out.push(v as u16);
            assert(out@ =~= encode_utf16(chars@.take(i as int)) + utf16_units(c));
        } else {
            let w = v - 0x10000;
            proof {
                vstd::utf8::char_is_scalar(c);
            }
            out.push((0xD800 + w / 0x400) as u16);
            out.push((0xDC00 + w % 0x400) as u16);
            assert(out@ =~= encode_utf16(chars@.take(i as int)) + utf16_units(c));
        }
        i += 1;
    }
    assert(chars@.take(chars.len() as int) =~= chars@);
    out
}

/// The NUL-terminated UTF-16 form of `value`, as Win32 `W` functions take
/// strings.
pub fn wide(value: &str) -> (r: Vec<u16>)
    ensures
        r@ == wide_text(value@),
{
    let mut out = encode_utf16_str(value);
    out.push(0);
    out
}

/// Decodes UTF-16 code units as `String::from_utf16_lossy` does.
pub fn utf16_to_string_lossy(units: &[u16]) -> (r: String)
    ensures
        r@ == decode_utf16_lossy(units@),
{
    let mut out = String::new();
    let n = units.len();
    let mut i: usize = 0;
    assert(units@.skip(0) =~= units@);
    while i < n
        invariant
            0 <= i <= n,
            n == units@.len(),
            decode_utf16_lossy(units@) == out@ + decode_utf16_lossy(units@.skip(i as int)),
        decreases n - i,
    {
        let u = units[i];
        let ghost tail = units@.skip(i as int);
        if u < 0xD800 || u > 0xDFFF {
            let c = scalar_to_char(u as u32);
            push_char(&mut out, c);
            assert(tail.drop_first() =~= units@.skip(i + 1));
            i += 1;
        } else if u <= 0xDBFF && i + 1 < n && units[i + 1] >= 0xDC00 && units[i + 1] <= 0xDFFF {
            let low = units[i + 1];
            let v: u32 = 0x10000 + ((u - 0xD800) as u32) * 0x400 + ((low - 0xDC00) as u32);
            let c = scalar_to_char(v);
            push_char(&mut out, c);
            assert(tail.subrange(2, tail.len() as int) =~= units@.skip(i + 2));
            i += 2;
        } else {
            push_char(&mut out, '\u{FFFD}');
            assert(tail.drop_first() =~= units@.skip(i + 1));
            i += 1;
        }
    }
    assert(units@.skip(n as int) =~= Seq::<u16>::empty());
    out
}

/// The text of a NUL-terminated UTF-16 buffer: the units before the first
/// NUL (all of them when there is none), decoded lossily.
pub fn utf16_buffer_to_string(buffer: &[u16]) -> (r: String)
    ensures
        r@ == decode_utf16_lossy(before_nul(buffer@)),
{
    let mut length: usize = 0;
    proof {
        assert(buffer@.skip(0) =~= buffer@);
        assert(buffer@.take(0) =~= Seq::<u16>::empty());
        assert(buffer@.take(0) + before_nul(buffer@.skip(0)) =~= before_nul(buffer@));
    }
    while length < buffer.len() && buffer[length] != 0
        invariant
            0 <= length <= buffer.len(),
            before_nul(buffer@) == buffer@.take(length as int) + before_nul(
                buffer@.skip(length as int),
            ),
        decreases buffer.len() - length,
    {
        proof {
            let t = buffer@.skip(length as int);
            assert(t.drop_first() =~= buffer@.skip(length + 1));
            assert(buffer@.take(length + 1) =~= buffer@.take(length as int) + seq![t[0]]);
        }
        length += 1;
    }
    proof {
        let t = buffer@.skip(length as int);
        if length < buffer.len() {
            assert(t[0] == 0);
        }
        assert(before_nul(t) =~= Seq::<u16>::empty());
    }
    let mut prefix: Vec<u16> = Vec::new();
    let mut k: usize = 0;
    while k < length
        invariant
            0 <= k <= length,
            length <= buffer.len(),
            prefix@ == buffer@.take(k as int),
        decreases length - k,
    {
        prefix.push(buffer[k]);
        assert(buffer@.take(k + 1) =~= buffer@.take(k as int).push(buffer@[k as int]));
        k += 1;
    }
    assert(before_nul(buffer@) =~= buffer@.take(length as int));
    utf16_to_string_lossy(prefix.as_slice())
}

/// A text without NUL characters passes through its NUL-terminated UTF-16
/// form unchanged: reading back what `wide` wrote gives the text again.
pub proof fn lemma_wide_round_trip(s: Seq<char>)
    requires
        forall|i: int| 0 <= i < s.len() ==> (#[trigger] s[i] as u32) != 0,
    ensures
        decode_utf16_lossy(before_nul(wide_text(s))) == s,
{
    lemma_encode_utf16_nul_free(s);
    lemma_decode_encode_utf16(s);
}

// ---------------------------------------------------------------------------
// Numerals
// ---------------------------------------------------------------------------

pub open spec fn digit_char(d: nat) -> char {
    (48 + d) as char
}

/// The decimal numeral of `n`, without leading zeros (`Display` for integers).
pub open spec fn decimal(n: nat) -> Seq<char>
    decreases n,
{
    if n < 10 {
        seq![digit_char(n)]
    } else {
        decimal(n / 10).push(digit_char(n % 10))
    }
}

/// An upper-case hexadecimal digit.
pub open spec fn hex_char(d: nat) -> char {
    if d < 10 {
        (48 + d) as char
    } else {
        (55 + d) as char
    }
}

/// The last `count` hexadecimal digits of `v`, upper case, zero padded
/// (`{:0count$X}` for values below `16^count`).
pub open spec fn hex_digits(v: nat, count: nat) -> Seq<char>
    decreases count,
{
    if count == 0 {
        Seq::empty()
    } else {
        hex_digits(v / 16, (count - 1) as nat).push(hex_char(v % 16))
    }
}

/// Appends the decimal numeral of `n`.
pub fn push_decimal(out: &mut String, n: u128)
    ensures
        final(out)@ == old(out)@ + decimal(n as nat),
    decreases n,
{
    if n >= 10 {
        push_decimal(out, n / 10);
    }
    let d: u8 = (n % 10) as u8;
    push_char(out, (48 + d) as char);
}

/// Appends the last `count` hexadecimal digits of `v`.
pub fn push_hex(out: &mut String, v: u32, count: u32)
    ensures
        final(out)@ == old(out)@ + hex_digits(v as nat, count as nat),
    decreases count,
{
    if count > 0 {
        push_hex(out, v / 16, count - 1);
        let d: u8 = (v % 16) as u8;
        if d < 10 {
            push_char(out, (48 + d) as char);
        } else {
            push_char(out, (55 + d) as char);
        }
    }
}

/// The value of a string of decimal digits.
pub open spec fn digits_value(s: Seq<char>) -> nat
    decreases s.len(),
{
    if s.len() == 0 {
        0
    } else {
        digits_value(s.drop_last()) * 10 + ((s.last() as u32) - 48) as nat
    }
}

/// The text after an optional leading `+`.
pub open spec fn unsigned_digits(s: Seq<char>) -> Seq<char> {
    if s.len() > 0 && s[0] == '+' {
        s.drop_first()
    } else {
        s
    }
}

pub open spec fn all_ascii_digits(s: Seq<char>) -> bool {
    forall|i: int| 0 <= i < s.len() ==> is_ascii_digit(#[trigger] s[i])
}

/// `u32::from_str`: an optional `+`, then one or more decimal digits whose
/// value fits in a `u32`.
pub open spec fn parse_u32_spec(s: Seq<char>) -> Option<u32> {
    let digits = unsigned_digits(s);
    if digits.len() == 0 {
        None
    } else if !all_ascii_digits(digits) {
        None
    } else if digits_value(digits) > u32::MAX {
        None
    } else {
        Some(digits_value(digits) as u32)
    }
}

/// Parses a decimal `u32` as `str::parse::<u32>` does.
pub fn parse_u32(text: &str) -> (r: Option<u32>)
    ensures
        r == parse_u32_spec(text@),
{
    let chars = chars_of(text);
    let start: usize = if chars.len() > 0 && chars[0] == '+' {
        1
    } else {
        0
    };
    let ghost digits = unsigned_digits(text@);
    assert(digits =~= chars@.skip(start as int));
    if start == chars.len() {
        return None;
    }
    let mut value: u64 = 0;
    let mut overflow = false;
    let mut i: usize = start;
    while i < chars.len()
        invariant
            start <= i <= chars.len(),
            start < chars.len(),
            chars@ == text@,
            digits == chars@.skip(start as int),
            digits == unsigned_digits(text@),
            forall|k: int| 0 <= k < i - start ==> is_ascii_digit(#[trigger] digits[k]),
            !overflow ==> value == digits_value(digits.take(i - start)) && value <= u32::MAX,
            overflow ==> digits_value(digits.take(i - start)) > u32::MAX,
        decreases chars.len() - i,
    {
        let c = chars[i];
        if !char_is_ascii_digit(c) {
            assert(digits[i - start] == c);
            assert(!is_ascii_digit(digits[i - start]));
            return None;
        }
        proof {
            assert(digits.take(i - start + 1).drop_last() =~= digits.take(i - start));
            assert(digits.take(i - start + 1).last() == c);
        }
        if !overflow {
            let d = (c as u32 - 48) as u64;
            value = value * 10 + d;
            if value > 0xFFFF_FFFF {
                overflow = true;
            }
        } else {
            let ghost t1 = digits.take(i - start + 1);
            assert(digits_value(t1) == digits_value(t1.drop_last()) * 10 + ((t1.last() as u32) - 48)
                as nat);
        }
        i += 1;
    }
    assert(digits.take(chars.len() - start) =~= digits);
    if overflow {
        None
    } else {
        Some(value as u32)
    }
}

} // verus!

verus! {

/// A decimal numeral is a non-empty string of ASCII digits whose value is
/// the number it was written for.
pub proof fn lemma_decimal_digits(n: nat)
    ensures
        decimal(n).len() > 0,
        all_ascii_digits(decimal(n)),
        digits_value(decimal(n)) == n,
    decreases n,
{
    let d = n % 10;
    assert((digit_char(d) as u32) == 48 + d);
    if n >= 10 {
        lemma_decimal_digits(n / 10);
        let s = decimal(n);
        assert(s.drop_last() =~= decimal(n / 10));
        assert(s.last() == digit_char(d));
        assert(digits_value(s) == digits_value(decimal(n / 10)) * 10 + d);
        assert forall|i: int| 0 <= i < s.len() implies is_ascii_digit(#[trigger] s[i]) by {
            if i < s.len() - 1 {
                assert(s[i] == decimal(n / 10)[i]);
            }
        }
    } else {
        let s = decimal(n);
        assert(s.drop_last() =~= Seq::<char>::empty());
        assert(digits_value(s) == digits_value(s.drop_last()) * 10 + ((s.last() as u32) - 48) as nat);
    }
}

pub open spec fn pow10(k: nat) -> nat
    decreases k,
{
    if k == 0 {
        1
    } else {
        10 * pow10((k - 1) as nat)
    }
}

/// A number below `10^k` has at most `k` digits.
pub proof fn lemma_decimal_len_bound(n: nat, k: nat)
    requires
        k >= 1,
        n < pow10(k),
    ensures
        decimal(n).len() <= k,
    decreases n,
{
    if n >= 10 {
        assert(k >= 2) by {
            if k == 1 {
                assert(pow10(1) == 10 * pow10(0));
            }
        }
        assert(pow10(k) == 10 * pow10((k - 1) as nat));
        lemma_decimal_len_bound(n / 10, (k - 1) as nat);
    }
}

/// Reading back a decimal numeral gives the number.
pub proof fn lemma_parse_decimal(n: u32)
    ensures
        parse_u32_spec(decimal(n as nat)) == Some(n),
{
    lemma_decimal_digits(n as nat);
    let s = decimal(n as nat);
    assert(s[0] != '+') by {
        assert(is_ascii_digit(s[0]));
    }
    assert(unsigned_digits(s) == s);
}

} // verus!
