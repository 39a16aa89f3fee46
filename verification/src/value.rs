use vstd::prelude::*;

use crate::error::Error;
use vstd::arithmetic::div_mod::{lemma_div_decreases, lemma_fundamental_div_mod};
use vstd::string::{StrSliceExecFns, StringExecFns};
use vstd::utf8::{
    decode_utf8, encode_utf8, encode_utf8_decode_utf8, encode_utf8_valid_utf8, valid_utf8,
};

verus! {

/// A payload value in its host representation. A floating-point number is
/// carried as its decimal text: the host layer converts between machine
/// floats and text, and this crate moves the text through the codec
/// unchanged.
#[derive(Debug)]
pub enum HostValue {
    Integer(i64),
    Float(String),
    Binary(Vec<u8>),
    Text(String),
}

/// Mathematical image of a `HostValue`.
pub enum HostValueV {
    Integer(i64),
    Float(Seq<char>),
    Binary(Seq<u8>),
    Text(Seq<char>),
}

impl View for HostValue {
    type V = HostValueV;

    open spec fn view(&self) -> HostValueV {
        match self {
            HostValue::Integer(i) => HostValueV::Integer(*i),
            HostValue::Float(s) => HostValueV::Float(s@),
            HostValue::Binary(b) => HostValueV::Binary(b@),
            HostValue::Text(s) => HostValueV::Text(s@),
        }
    }
}

/// The four wire encodings this crate maps to host values.
#[derive(Debug, Clone, Copy, PartialEq, Eq, Structural)]
pub enum EncodingTag {
    Integer,
    Float,
    OctetStream,
    TextPlain,
}

/// The textual name of an encoding tag.
pub open spec fn tag_text(t: EncodingTag) -> Seq<char> {
    match t {
        EncodingTag::Integer => "application/integer"@,
        EncodingTag::Float => "application/float"@,
        EncodingTag::OctetStream => "application/octet-stream"@,
        EncodingTag::TextPlain => "text/plain"@,
    }
}

/// The tag a textual encoding name denotes, if any.
pub open spec fn tag_of_text(s: Seq<char>) -> Option<EncodingTag> {
    if s == tag_text(EncodingTag::Integer) {
        Some(EncodingTag::Integer)
    } else if s == tag_text(EncodingTag::Float) {
        Some(EncodingTag::Float)
    } else if s == tag_text(EncodingTag::OctetStream) {
        Some(EncodingTag::OctetStream)
    } else if s == tag_text(EncodingTag::TextPlain) {
        Some(EncodingTag::TextPlain)
    } else {
        None
    }
}

/// The value of one decimal digit byte; zero for anything else.
pub open spec fn digit_val(b: u8) -> nat {
    if 48 <= b <= 57 {
        (b - 48) as nat
    } else {
        0
    }
}

/// Whether a byte is a decimal digit.
pub open spec fn is_digit(b: u8) -> bool {
    48 <= b <= 57
}

/// The decimal digits of `n`, most significant first.
pub open spec fn dec_digits(n: nat) -> Seq<u8>
    decreases n,
{
    if n < 10 {
        seq![(n + 48) as u8]
    } else {
        dec_digits(n / 10).push((n % 10 + 48) as u8)
    }
}

/// The number a digit string denotes, most significant digit first.
pub open spec fn dec_val(s: Seq<u8>) -> nat
    decreases s.len(),
{
    if s.len() == 0 {
        0
    } else {
        dec_val(s.drop_last()) * 10 + digit_val(s.last())
    }
}

/// Whether every byte is a decimal digit.
pub open spec fn all_digits(s: Seq<u8>) -> bool {
    forall|i: int| 0 <= i < s.len() ==> is_digit(#[trigger] s[i])
}

/// A canonical unsigned decimal: nonempty, digits only, and no leading
/// zero except for "0" itself.
pub open spec fn canonical_udec(s: Seq<u8>) -> bool {
    s.len() > 0 && all_digits(s) && (s[0] == 48 ==> s.len() == 1)
}

/// A canonical signed decimal: an optional minus sign — never on zero —
/// followed by a canonical unsigned decimal.
pub open spec fn canonical_dec(s: Seq<u8>) -> bool {
    if s.len() > 0 && s[0] == 45 {
        canonical_udec(s.skip(1)) && dec_val(s.skip(1)) > 0
    } else {
        canonical_udec(s)
    }
}

/// The integer a canonical decimal denotes.
pub open spec fn dec_int(s: Seq<u8>) -> int {
    if s.len() > 0 && s[0] == 45 {
        -(dec_val(s.skip(1)) as int)
    } else {
        dec_val(s) as int
    }
}

/// A canonical decimal whose value fits a 64-bit signed integer: exactly
/// the payloads the integer decoding accepts.
pub open spec fn canonical_i64(s: Seq<u8>) -> bool {
    canonical_dec(s) && -0x8000000000000000 <= dec_int(s) <= 0x7fffffffffffffff
}

/// The canonical decimal text of an integer, as bytes.
pub open spec fn int_decimal(i: int) -> Seq<u8> {
    if i < 0 {
        seq![45u8] + dec_digits((-i) as nat)
    } else {
        dec_digits(i as nat)
    }
}

/// The digits of a number are digits, and the first is zero only for the
/// number zero itself.
pub proof fn lemma_dec_digits_canonical(n: nat)
    ensures
        dec_digits(n).len() > 0,
        all_digits(dec_digits(n)),
        canonical_udec(dec_digits(n)),
        n > 0 ==> dec_digits(n)[0] != 48,
    decreases n,
{
    if n < 10 {
    } else {
        lemma_div_decreases(n as int, 10);
        lemma_dec_digits_canonical(n / 10);
        assert(n / 10 > 0) by {
            lemma_fundamental_div_mod(n as int, 10);
        }
        let s = dec_digits(n);
        let t = dec_digits(n / 10);
        assert(s == t.push((n % 10 + 48) as u8));
        assert(s[0] == t[0]);
        assert forall|i: int| 0 <= i < s.len() implies is_digit(s[i]) by {
            if i < t.len() {
                assert(s[i] == t[i]);
            }
        }
    }
}

/// Rendering a number and reading the digits back gives the number.
pub proof fn lemma_dec_val_of_digits(n: nat)
    ensures
        dec_val(dec_digits(n)) == n,
    decreases n,
{
    if n < 10 {
        assert(dec_digits(n) == seq![(n + 48) as u8]);
        assert(dec_digits(n).drop_last() =~= Seq::<u8>::empty());
        assert(dec_val(Seq::<u8>::empty()) == 0);
        assert(dec_digits(n).last() == (n + 48) as u8);
        assert(digit_val((n + 48) as u8) == n);
    } else {
        lemma_div_decreases(n as int, 10);
        lemma_dec_val_of_digits(n / 10);
        let s = dec_digits(n);
        let t = dec_digits(n / 10);
        assert(s == t.push((n % 10 + 48) as u8));
        assert(s.drop_last() =~= t);
        assert(s.last() == (n % 10 + 48) as u8);
        assert(digit_val((n % 10 + 48) as u8) == n % 10);
        lemma_fundamental_div_mod(n as int, 10);
    }
}

/// Reading more digits never lowers the value.
pub proof fn lemma_dec_val_mono(s: Seq<u8>, i: int, j: int)
    requires
        0 <= i <= j <= s.len(),
    ensures
        dec_val(s.subrange(0, i)) <= dec_val(s.subrange(0, j)),
    decreases j - i,
{
    if i < j {
        lemma_dec_val_mono(s, i, j - 1);
        let a = s.subrange(0, j - 1);
        let b = s.subrange(0, j);
        assert(b.drop_last() =~= a);
        assert(dec_val(b) == dec_val(a) * 10 + digit_val(b.last()));
    }
}

/// Render `n`'s digits onto the end of `out`.
fn push_dec(n: u64, out: &mut Vec<u8>)
    ensures
        final(out)@ == old(out)@ + dec_digits(n as nat),
    decreases n,
{
    if n < 10 {
        out.push((n as u8) + 48);
        proof {
            assert(final(out)@ =~= old(out)@ + dec_digits(n as nat));
        }
    } else {
        proof {
            lemma_div_decreases(n as int, 10);
        }
        push_dec(n / 10, out);
        out.push((n % 10) as u8 + 48);
        proof {
            assert(dec_digits(n as nat) == dec_digits(n as nat / 10).push(
                (n as nat % 10 + 48) as u8,
            ));
            assert(final(out)@ =~= old(out)@ + dec_digits(n as nat));
        }
    }
}

/// The canonical decimal rendering of a 64-bit signed integer.
pub fn encode_integer(i: i64) -> (r: Vec<u8>)
    ensures
        r@ == int_decimal(i as int),
{
    let mut out: Vec<u8> = Vec::new();
    if i < 0 {
        out.push(45);
        let m: u64 = (-(i as i128)) as u64;
        push_dec(m, &mut out);
        proof {
            assert(out@ =~= seq![45u8] + dec_digits(m as nat));
        }
    } else {
        push_dec(i as u64, &mut out);
        proof {
            assert(out@ =~= dec_digits(i as nat));
        }
    }
    out
}

/// Parse a canonical decimal into a 64-bit signed integer. Returns nothing
/// — never a wrong value — on any payload that is not the canonical
/// rendering of an integer in range.
#[verifier::loop_isolation(false)]
pub fn parse_integer(bytes: &Vec<u8>) -> (r: Option<i64>)
    ensures
        r matches Some(v) ==> canonical_i64(bytes@) && v as int == dec_int(bytes@),
        r is None ==> !canonical_i64(bytes@),
{
    let n = bytes.len();
    if n == 0 {
        return None;
    }
    let neg = bytes[0] == 45;
    let start: usize = if neg {
        1
    } else {
        0
    };
    let ghost digits = bytes@.skip(start as int);
    if n == start {
        return None;
    }
    if bytes[start] < 48 || bytes[start] > 57 {
        proof {
            assert(digits[0] == bytes@[start as int]);
        }
        return None;
    }
    if bytes[start] == 48 && n - start > 1 {
        return None;
    }
    if neg && bytes[start] == 48 {
        proof {
            assert(digits =~= seq![48u8]);
            assert(digits.drop_last() =~= Seq::<u8>::empty());
            assert(dec_val(Seq::<u8>::empty()) == 0);
            assert(digit_val(48u8) == 0);
            assert(dec_val(digits) == 0);
        }
        return None;
    }
    let limit: u128 = if neg {
        0x8000000000000000
    } else {
        0x7fffffffffffffff
    };
    let mut acc: u128 = 0;
    let mut i: usize = start;
    proof {
        assert(digits.subrange(0, 0) =~= Seq::<u8>::empty());
    }
    while i < n
        invariant
            start <= i <= n,
            acc == dec_val(digits.subrange(0, i - start)),
            acc <= limit,
            forall|k: int| 0 <= k < i - start ==> is_digit(#[trigger] digits[k]),
        decreases n - i,
    {
        let b = bytes[i];
        proof {
            assert(digits[i - start] == bytes@[i as int]);
        }
        if b < 48 || b > 57 {
            return None;
        }
        let d = (b - 48) as u128;
        let next = acc * 10 + d;
        proof {
            assert(digits.subrange(0, i + 1 - start).drop_last() =~= digits.subrange(
                0,
                i - start,
            ));
            assert(digits.subrange(0, i + 1 - start).last() == digits[i - start]);
            assert(digit_val(b) == d);
        }
        if next > limit {
            proof {
                lemma_dec_val_mono(digits, i + 1 - start, digits.len() as int);
                assert(digits.subrange(0, digits.len() as int) =~= digits);
                assert(dec_val(digits) > limit);
                if !neg {
                    assert(digits =~= bytes@);
                }
            }
            return None;
        }
        acc = next;
        i = i + 1;
    }
    proof {
        assert(digits.subrange(0, n - start) =~= digits);
        assert(canonical_udec(digits));
        if !neg {
            assert(digits =~= bytes@);
            assert(bytes@[0] != 45);
        } else {
            assert(bytes@[0] == 45);
        }
    }
    if neg {
        proof {
            assert(digits[0] != 48);
            assert(digits.subrange(0, 1).drop_last() =~= Seq::<u8>::empty());
            lemma_dec_val_mono(digits, 1, digits.len() as int);
            assert(dec_val(digits) > 0);
        }
        if acc == 0x8000000000000000 {
            Some(i64::MIN)
        } else {
            Some(-(acc as i64))
        }
    } else {
        Some(acc as i64)
    }
}

/// The canonical rendering of an integer parses back to the integer: it is
/// canonical, in range for the range of the integer, and denotes it.
pub proof fn lemma_integer_round_trip(i: i64)
    ensures
        canonical_i64(int_decimal(i as int)),
        dec_int(int_decimal(i as int)) == i as int,
{
    if i >= 0 {
        lemma_dec_digits_canonical(i as nat);
        lemma_dec_val_of_digits(i as nat);
        assert(int_decimal(i as int)[0] != 45);
    } else {
        let m = (-(i as int)) as nat;
        lemma_dec_digits_canonical(m);
        lemma_dec_val_of_digits(m);
        let s = int_decimal(i as int);
        assert(s == seq![45u8] + dec_digits(m));
        assert(s[0] == 45);
        assert(s.skip(1) =~= dec_digits(m));
    }
}

/// Two character sequences with the same UTF-8 bytes are the same.
proof fn lemma_encode_utf8_injective(a: Seq<char>, b: Seq<char>)
    requires
        encode_utf8(a) == encode_utf8(b),
    ensures
        a == b,
{
    encode_utf8_decode_utf8(a);
    encode_utf8_decode_utf8(b);
}

/// Relies on `String::from_utf8` of std: it succeeds exactly when the
/// bytes are valid UTF-8, and the returned string holds those very bytes.
#[verifier::external_body]
fn bytes_to_text(bytes: Vec<u8>) -> (r: Option<String>)
    ensures
        r is Some <==> valid_utf8(bytes@),
        r matches Some(s) ==> encode_utf8(s@) == bytes@,
{
    match String::from_utf8(bytes) {
        Ok(s) => Some(s),
        Err(_) => None,
    }
}

/// String equality, decided on the UTF-8 bytes.
fn str_eq(a: &str, b: &str) -> (r: bool)
    ensures
        r == (a@ == b@),
{
    let av = a.as_bytes_vec();
    let bv = b.as_bytes_vec();
    let eq = av == bv;
    proof {
        if eq {
            assert(av@ =~= bv@);
            lemma_encode_utf8_injective(a@, b@);
        } else {
            if a@ == b@ {
                assert(av@ =~= bv@);
                assert(false);
            }
        }
    }
    eq
}

/// The textual name of an encoding tag, as it travels on the wire.
pub fn encoding_text(t: EncodingTag) -> (r: String)
    ensures
        r@ == tag_text(t),
{
    match t {
        EncodingTag::Integer => String::from_str("application/integer"),
        EncodingTag::Float => String::from_str("application/float"),
        EncodingTag::OctetStream => String::from_str("application/octet-stream"),
        EncodingTag::TextPlain => String::from_str("text/plain"),
    }
}

/// Parse a textual encoding name into its tag, if it is one of the four
/// encodings this crate maps.
pub fn parse_encoding_tag(s: &str) -> (r: Option<EncodingTag>)
    ensures
        r == tag_of_text(s@),
{
    if str_eq(s, "application/integer") {
        Some(EncodingTag::Integer)
    } else if str_eq(s, "application/float") {
        Some(EncodingTag::Float)
    } else if str_eq(s, "application/octet-stream") {
        Some(EncodingTag::OctetStream)
    } else if str_eq(s, "text/plain") {
        Some(EncodingTag::TextPlain)
    } else {
        None
    }
}

/// The wire bytes a host value encodes to.
pub open spec fn encode_bytes(v: HostValueV) -> Seq<u8> {
    match v {
        HostValueV::Integer(i) => int_decimal(i as int),
        HostValueV::Float(s) => encode_utf8(s),
        HostValueV::Binary(b) => b,
        HostValueV::Text(s) => encode_utf8(s),
    }
}

/// The encoding tag a host value encodes under.
pub open spec fn encode_tag(v: HostValueV) -> EncodingTag {
    match v {
        HostValueV::Integer(_) => EncodingTag::Integer,
        HostValueV::Float(_) => EncodingTag::Float,
        HostValueV::Binary(_) => EncodingTag::OctetStream,
        HostValueV::Text(_) => EncodingTag::TextPlain,
    }
}

/// Encode a host value into its wire bytes and encoding tag.
pub fn encode(v: HostValue) -> (r: (Vec<u8>, EncodingTag))
    ensures
        r.0@ == encode_bytes(v@),
        r.1 == encode_tag(v@),
{
    match v {
        HostValue::Integer(i) => (encode_integer(i), EncodingTag::Integer),
        HostValue::Float(s) => (s.as_str().as_bytes_vec(), EncodingTag::Float),
        HostValue::Binary(b) => (b, EncodingTag::OctetStream),
        HostValue::Text(s) => (s.as_str().as_bytes_vec(), EncodingTag::TextPlain),
    }
}

/// What decoding wire bytes under a known tag yields: the host value, or
/// `InvalidArgument` when the payload is malformed for that tag.
pub open spec fn decode_spec(bytes: Seq<u8>, t: EncodingTag) -> Result<HostValueV, Error> {
    match t {
        EncodingTag::Integer => if canonical_i64(bytes) {
            Ok(HostValueV::Integer(dec_int(bytes) as i64))
        } else {
            Err(Error::InvalidArgument)
        },
        EncodingTag::Float => if valid_utf8(bytes) {
            Ok(HostValueV::Float(decode_utf8(bytes)))
        } else {
            Err(Error::InvalidArgument)
        },
        EncodingTag::OctetStream => Ok(HostValueV::Binary(bytes)),
        EncodingTag::TextPlain => if valid_utf8(bytes) {
            Ok(HostValueV::Text(decode_utf8(bytes)))
        } else {
            Err(Error::InvalidArgument)
        },
    }
}

/// Decode wire bytes tagged with `encoding` into a host value.
///
/// An encoding outside the four known names fails with
/// `EncodingUnsupported`; under a known tag, a malformed payload fails
/// with `InvalidArgument` and everything else decodes.
pub fn decode(bytes: Vec<u8>, encoding: &str) -> (r: Result<HostValue, Error>)
    ensures
        tag_of_text(encoding@) is None ==> (r matches Err(e) && e == Error::EncodingUnsupported),
        tag_of_text(encoding@) matches Some(t) ==> (match r {
            Ok(v) => decode_spec(bytes@, t) == Ok::<HostValueV, Error>(v@),
            Err(e) => decode_spec(bytes@, t) == Err::<HostValueV, Error>(e),
        }),
{
    let tag = match parse_encoding_tag(encoding) {
        Some(t) => t,
        None => {
            return Err(Error::EncodingUnsupported);
        },
    };
    match tag {
        EncodingTag::Integer => match parse_integer(&bytes) {
            Some(v) => {
                proof {
                    assert(v == dec_int(bytes@) as i64);
                }
                Ok(HostValue::Integer(v))
            },
            None => Err(Error::InvalidArgument),
        },
        EncodingTag::Float => match bytes_to_text(bytes) {
            Some(s) => {
                proof {
                    encode_utf8_decode_utf8(s@);
                }
                Ok(HostValue::Float(s))
            },
            None => Err(Error::InvalidArgument),
        },
        EncodingTag::OctetStream => Ok(HostValue::Binary(bytes)),
        EncodingTag::TextPlain => match bytes_to_text(bytes) {
            Some(s) => {
                proof {
                    encode_utf8_decode_utf8(s@);
                }
                Ok(HostValue::Text(s))
            },
            None => Err(Error::InvalidArgument),
        },
    }
}

/// Codec round trip: decoding what `encode` produced gives the value
/// back — byte-for-byte for binaries, by value for integers, floats and
/// text.
pub proof fn lemma_codec_round_trip(v: HostValueV)
    ensures
        decode_spec(encode_bytes(v), encode_tag(v)) == Ok::<HostValueV, Error>(v),
{
    match v {
        HostValueV::Integer(i) => {
            lemma_integer_round_trip(i);
        },
        HostValueV::Float(s) => {
            encode_utf8_valid_utf8(s);
            encode_utf8_decode_utf8(s);
        },
        HostValueV::Binary(_) => {
        },
        HostValueV::Text(s) => {
            encode_utf8_valid_utf8(s);
            encode_utf8_decode_utf8(s);
        },
    }
}

/// Each tag's textual name parses back to the tag itself.
pub proof fn lemma_tag_text_round_trip(t: EncodingTag)
    ensures
        tag_of_text(tag_text(t)) == Some(t),
{
    reveal_strlit("application/integer");
    reveal_strlit("application/float");
    reveal_strlit("application/octet-stream");
    reveal_strlit("text/plain");
    assert("application/integer"@.len() == 19);
    assert("application/float"@.len() == 17);
    assert("application/octet-stream"@.len() == 24);
    assert("text/plain"@.len() == 10);
}

} // verus!
