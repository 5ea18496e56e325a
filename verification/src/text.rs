//! Text helpers shared by the value model: byte-sequence to string decoding,
//! decimal rendering of integers, and ASCII case folding for keyword matching.

use vstd::prelude::*;

verus! {

use vstd::string::StringSliceAdditionalSpecFns;
use vstd::utf8::{valid_utf8, decode_utf8};

/// What `String::from_utf8_lossy` yields for a byte sequence that is not
/// valid UTF-8; a function of the bytes alone.
pub uninterp spec fn lossy_chars(b: Seq<u8>) -> Seq<char>;

/// The lenient decoding of a byte sequence: valid UTF-8 decodes exactly,
/// anything else decodes to what the lossy decoder makes of it.
pub open spec fn spec_lossy(b: Seq<u8>) -> Seq<char> {
    if valid_utf8(b) {
        decode_utf8(b)
    } else {
        lossy_chars(b)
    }
}

/// Relies on `String::from_utf8_lossy`: the result depends on the bytes
/// alone, and valid UTF-8 input is decoded unchanged.
#[verifier::external_body]
pub fn bytes_to_string_lossy(b: &[u8]) -> (r: String)
    ensures
        r@ == spec_lossy(b@),
        !valid_utf8(b@) ==> r@ == lossy_chars(b@),
{
    String::from_utf8_lossy(b).into_owned()
}

/// The decimal digit character for a value in `0 ..= 9`.
pub open spec fn digit_char(d: int) -> char {
    if d == 0 {
        '0'
    } else if d == 1 {
        '1'
    } else if d == 2 {
        '2'
    } else if d == 3 {
        '3'
    } else if d == 4 {
        '4'
    } else if d == 5 {
        '5'
    } else if d == 6 {
        '6'
    } else if d == 7 {
        '7'
    } else if d == 8 {
        '8'
    } else {
        '9'
    }
}

/// The decimal rendering of a non-negative integer, most significant digit
/// first, with no leading zeros (a lone `0` for zero).
pub open spec fn spec_decimal(n: int) -> Seq<char>
    recommends
        n >= 0,
    decreases n,
{
    if n < 10 {
        seq![digit_char(n)]
    } else {
        spec_decimal(n / 10).push(digit_char(n % 10))
    }
}

/// The decimal rendering of a signed integer: a leading `-` before the
/// magnitude when negative.
pub open spec fn spec_decimal_signed(v: int) -> Seq<char> {
    if v < 0 {
        seq!['-'] + spec_decimal(-v)
    } else {
        spec_decimal(v)
    }
}

/// Each digit character is the ASCII byte `48 + d`, and survives the round
/// trip through `u8`.
proof fn lemma_digit_char_ascii(d: int)
    requires
        0 <= d <= 9,
    ensures
        digit_char(d) as u32 == 48 + d,
        digit_char(d) as u8 as char == digit_char(d),
{
}

/// Render a `u64` in decimal.
pub fn decimal_u64(n: u64) -> (r: String)
    ensures
        r@ == spec_decimal(n as int),
{
    let mut digits: Vec<u8> = Vec::new();
    let mut m: u64 = n;
    proof {
        assert(spec_decimal(n as int) =~= spec_decimal(n as int) + digits@.reverse().map_values(
            |d: u8| digit_char(d as int),
        ));
    }
    while m >= 10
        invariant
            spec_decimal(n as int) == spec_decimal(m as int) + digits@.reverse().map_values(
                |d: u8| digit_char(d as int),
            ),
            forall|i: int| 0 <= i < digits@.len() ==> #[trigger] digits@[i] < 10,
        decreases m,
    {
        let ghost pre = digits@;
        digits.push((m % 10) as u8);
        proof {
            assert(digits@.reverse() =~= seq![digits@[digits@.len() - 1]] + pre.reverse());
            assert(spec_decimal(m as int) == spec_decimal(m as int / 10).push(
                digit_char(m as int % 10),
            ));
            assert(spec_decimal(m as int) + pre.reverse().map_values(
                |d: u8| digit_char(d as int),
            ) =~= spec_decimal(m as int / 10) + digits@.reverse().map_values(
                |d: u8| digit_char(d as int),
            ));
        }
        m = m / 10;
    }
    let ghost final_digits = digits@;
    let mut bytes: Vec<u8> = Vec::new();
    bytes.push(48 + (m as u8));
    let mut i: usize = digits.len();
    while i > 0
        invariant
            i <= digits.len(),
            digits@ == final_digits,
            forall|j: int| 0 <= j < digits@.len() ==> #[trigger] digits@[j] < 10,
            m < 10,
            bytes@.len() == 1 + (digits@.len() - i),
            bytes@[0] == 48 + m,
            forall|j: int|
                1 <= j < bytes@.len() ==> #[trigger] bytes@[j] == 48 + digits@[digits@.len()
                    - j],
        decreases i,
    {
        i = i - 1;
        bytes.push(48 + digits[i]);
    }
    proof {
        let chars = spec_decimal(n as int);
        assert(chars == spec_decimal(m as int) + final_digits.reverse().map_values(
            |d: u8| digit_char(d as int),
        ));
        assert(spec_decimal(m as int) =~= seq![digit_char(m as int)]);
        assert(chars.len() == 1 + final_digits.len());
        assert forall|j: int| 0 <= j < bytes@.len() implies #[trigger] bytes@[j] == chars[j]
            as u8 && chars[j] as u8 as char == chars[j] && ((chars[j] as u32) < 128) by {
            if j == 0 {
                assert(chars[0] == digit_char(m as int));
                lemma_digit_char_ascii(m as int);
            } else {
                assert(chars[j] == final_digits.reverse().map_values(
                    |d: u8| digit_char(d as int),
                )[j - 1]);
                assert(final_digits.reverse()[j - 1] == final_digits[final_digits.len() - j]);
                assert(chars[j] == digit_char(final_digits[final_digits.len() - j] as int));
                lemma_digit_char_ascii(final_digits[final_digits.len() - j] as int);
            }
        }
        lemma_ascii_bytes_decode(bytes@, chars);
    }
    bytes_to_string_lossy(bytes.as_slice())
}

/// Render an `i64` in decimal, with a leading `-` when negative.
pub fn decimal_i64(v: i64) -> (r: String)
    ensures
        r@ == spec_decimal_signed(v as int),
{
    if v >= 0 {
        decimal_u64(v as u64)
    } else {
        let wide: i128 = v as i128;
        let mag: u64 = (-wide) as u64;
        let digits = decimal_u64(mag);
        let s = String::from_str("-");
        let r = s.concat(digits.as_str());
        proof {
            reveal_strlit("-");
            assert(r@ =~= spec_decimal_signed(v as int));
        }
        r
    }
}

/// Bytes that hold ASCII characters decode, losslessly, to those characters.
proof fn lemma_ascii_bytes_decode(bytes: Seq<u8>, chars: Seq<char>)
    requires
        bytes.len() == chars.len(),
        forall|i: int| 0 <= i < chars.len() ==> ((#[trigger] chars[i]) as u32) < 128,
        forall|i: int| 0 <= i < bytes.len() ==> #[trigger] bytes[i] == chars[i] as u8,
        forall|i: int| 0 <= i < chars.len() ==> #[trigger] chars[i] as u8 as char == chars[i],
    ensures
        valid_utf8(bytes),
        decode_utf8(bytes) == chars,
{
    broadcast use vstd::utf8::group_utf8_lib;

    vstd::utf8::is_ascii_chars_encode_utf8(chars);
    assert(vstd::utf8::is_ascii_chars(chars));
    assert(vstd::utf8::encode_utf8(chars) =~= bytes);
    assert(decode_utf8(vstd::utf8::encode_utf8(chars)) == chars);
}

/// ASCII lower-casing of one byte: `A ..= Z` maps to `a ..= z`, everything
/// else is unchanged.
pub open spec fn spec_lower_byte(b: u8) -> u8 {
    if 65 <= b <= 90 {
        (b + 32) as u8
    } else {
        b
    }
}

/// The ASCII-lower-cased form of a byte sequence.
pub open spec fn spec_lower_bytes(s: Seq<u8>) -> Seq<u8> {
    s.map_values(|b: u8| spec_lower_byte(b))
}

/// Lower-case the ASCII letters of a byte slice.
pub fn lower_bytes(s: &[u8]) -> (r: Vec<u8>)
    ensures
        r@ == spec_lower_bytes(s@),
{
    let mut r: Vec<u8> = Vec::new();
    let mut i: usize = 0;
    while i < s.len()
        invariant
            i <= s@.len(),
            r@ =~= spec_lower_bytes(s@.take(i as int)),
        decreases s@.len() - i,
    {
        let b = s[i];
        if 65 <= b && b <= 90 {
            r.push(b + 32);
        } else {
            r.push(b);
        }
        proof {
            assert(s@.take(i + 1) =~= s@.take(i as int).push(s@[i as int]));
            assert(spec_lower_bytes(s@.take(i + 1)) =~= spec_lower_bytes(s@.take(i as int)).push(
                spec_lower_byte(s@[i as int]),
            ));
        }
        i = i + 1;
    }
    proof {
        assert(s@.take(s@.len() as int) =~= s@);
    }
    r
}

/// Compare a byte vector against the UTF-8 bytes of a string slice.
pub fn bytes_eq_str(v: &Vec<u8>, lit: &str) -> (r: bool)
    ensures
        r == (v@ == lit.spec_bytes()),
{
    let lb = lit.as_bytes();
    if v.len() != lb.len() {
        proof {
            assert(v@ != lit.spec_bytes());
        }
        return false;
    }
    let mut i: usize = 0;
    while i < lb.len()
        invariant
            i <= lb@.len(),
            v@.len() == lb@.len(),
            lb@ == lit.spec_bytes(),
            forall|j: int| 0 <= j < i ==> v@[j] == lb@[j],
        decreases lb@.len() - i,
    {
        if v[i] != lb[i] {
            proof {
                assert(v@ != lit.spec_bytes());
            }
            return false;
        }
        i = i + 1;
    }
    proof {
        assert(v@ =~= lit.spec_bytes());
    }
    true
}

} // verus!
