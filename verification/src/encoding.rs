//! Text rendering for request URLs: percent-encoding of query components
//! and decimal rendering of integers.
//!
//! A query component is encoded byte by byte: RFC 3986 unreserved
//! characters stand as themselves, every other character as `%XX` triples
//! over its UTF-8 bytes, with upper-case hexadecimal digits.

use vstd::prelude::*;
use vstd::string::StringExecFns;
use vstd::string::StrSliceExecFns;
use vstd::utf8::char_is_scalar;
use vstd::utf8::encode_scalar;
use vstd::utf8::has_width_1_encoding;
use vstd::utf8::has_width_2_encoding;
use vstd::utf8::has_width_3_encoding;
use vstd::utf8::has_width_4_encoding;
use vstd::utf8::last_continuation_byte;
use vstd::utf8::leading_byte_width_1;
use vstd::utf8::leading_byte_width_2;
use vstd::utf8::leading_byte_width_3;
use vstd::utf8::leading_byte_width_4;
use vstd::utf8::second_last_continuation_byte;
use vstd::utf8::third_last_continuation_byte;

verus! {

/// RFC 3986 unreserved code points, which pass through unchanged:
/// letters, digits, `-`, `.`, `_` and `~`.
pub open spec fn spec_is_unreserved(u: u32) -> bool {
    ||| 0x61 <= u <= 0x7A  // 'a' ..= 'z'
    ||| 0x41 <= u <= 0x5A  // 'A' ..= 'Z'
    ||| 0x30 <= u <= 0x39  // '0' ..= '9'
    ||| u == 0x2D  // '-'
    ||| u == 0x2E  // '.'
    ||| u == 0x5F  // '_'
    ||| u == 0x7E  // '~'
}

/// The character standing for one hexadecimal digit, upper case.
pub open spec fn spec_hex_char(n: u8) -> char {
    if n == 0 {
        '0'
    } else if n == 1 {
        '1'
    } else if n == 2 {
        '2'
    } else if n == 3 {
        '3'
    } else if n == 4 {
        '4'
    } else if n == 5 {
        '5'
    } else if n == 6 {
        '6'
    } else if n == 7 {
        '7'
    } else if n == 8 {
        '8'
    } else if n == 9 {
        '9'
    } else if n == 10 {
        'A'
    } else if n == 11 {
        'B'
    } else if n == 12 {
        'C'
    } else if n == 13 {
        'D'
    } else if n == 14 {
        'E'
    } else {
        'F'
    }
}

/// The three characters that percent-encode one byte.
pub open spec fn spec_pct_byte(b: u8) -> Seq<char> {
    seq!['%', spec_hex_char(b / 16), spec_hex_char(b % 16)]
}

/// The percent-encoding of a byte sequence, one `%XX` triple per byte.
pub open spec fn spec_pct_bytes(bs: Seq<u8>) -> Seq<char>
    decreases bs.len(),
{
    if bs.len() == 0 {
        Seq::empty()
    } else {
        spec_pct_byte(bs[0]) + spec_pct_bytes(bs.drop_first())
    }
}

/// The extra characters a path segment may carry bare: the
/// sub-delimiters plus `:` and `@`.
pub open spec fn spec_is_path_extra(u: u32) -> bool {
    ||| u == 0x21  // '!'
    ||| u == 0x24  // '$'
    ||| u == 0x26  // '&'
    ||| u == 0x27  // '\''
    ||| u == 0x28  // '('
    ||| u == 0x29  // ')'
    ||| u == 0x2A  // '*'
    ||| u == 0x2B  // '+'
    ||| u == 0x2C  // ','
    ||| u == 0x3B  // ';'
    ||| u == 0x3D  // '='
    ||| u == 0x3A  // ':'
    ||| u == 0x40  // '@'
}

/// Which code points stand bare: the unreserved set in a query
/// component, and additionally the path-segment characters in a path
/// segment.
pub open spec fn spec_keeps(u: u32, path: bool) -> bool {
    spec_is_unreserved(u) || (path && spec_is_path_extra(u))
}

/// How one character appears in an encoded component.
pub open spec fn spec_pct_char_sel(c: char, path: bool) -> Seq<char> {
    if spec_keeps(c as u32, path) {
        seq![c]
    } else {
        spec_pct_bytes(encode_scalar(c as u32))
    }
}

/// Percent-encoding of a whole component, for either character set.
pub open spec fn spec_pct_encode_sel(s: Seq<char>, path: bool) -> Seq<char>
    decreases s.len(),
{
    if s.len() == 0 {
        Seq::empty()
    } else {
        spec_pct_char_sel(s[0], path) + spec_pct_encode_sel(s.drop_first(), path)
    }
}

/// Standard URL query encoding of a query component.
pub open spec fn spec_pct_encode(s: Seq<char>) -> Seq<char> {
    spec_pct_encode_sel(s, false)
}

/// Standard URL path-segment encoding.
pub open spec fn spec_pct_encode_path(s: Seq<char>) -> Seq<char> {
    spec_pct_encode_sel(s, true)
}

/// Encoding a component one character longer appends that character's encoding.
proof fn lemma_pct_encode_push(s: Seq<char>, c: char, path: bool)
    ensures
        spec_pct_encode_sel(s.push(c), path) == spec_pct_encode_sel(s, path) + spec_pct_char_sel(
            c,
            path,
        ),
    decreases s.len(),
{
    reveal_with_fuel(spec_pct_encode_sel, 3);
    if s.len() == 0 {
        assert(s.push(c)[0] == c);
        assert(s.push(c).drop_first() =~= Seq::<char>::empty());
        assert(spec_pct_encode_sel(s.push(c), path) =~= spec_pct_encode_sel(s, path)
            + spec_pct_char_sel(c, path));
    } else {
        lemma_pct_encode_push(s.drop_first(), c, path);
        assert(s.push(c).drop_first() =~= s.drop_first().push(c));
        assert(s.push(c)[0] == s[0]);
        assert(spec_pct_encode_sel(s.push(c), path) =~= spec_pct_encode_sel(s, path)
            + spec_pct_char_sel(c, path));
    }
}

/// Whether a character stands bare under the selected character set.
fn keeps(u: u32, path: bool) -> (r: bool)
    ensures
        r == spec_keeps(u, path),
{
    if (0x61 <= u && u <= 0x7A) || (0x41 <= u && u <= 0x5A) || (0x30 <= u && u <= 0x39) || u == 0x2D
        || u == 0x2E || u == 0x5F || u == 0x7E {
        true
    } else if path {
        u == 0x21 || u == 0x24 || u == 0x26 || u == 0x27 || u == 0x28 || u == 0x29 || u == 0x2A || u
            == 0x2B || u == 0x2C || u == 0x3B || u == 0x3D || u == 0x3A || u == 0x40
    } else {
        false
    }
}

/// One-character string for a hexadecimal digit, upper case.
fn hex_str(n: u8) -> (r: &'static str)
    requires
        n < 16,
    ensures
        r@ == seq![spec_hex_char(n)],
{
    proof {
        reveal_strlit("0");
        reveal_strlit("1");
        reveal_strlit("2");
        reveal_strlit("3");
        reveal_strlit("4");
        reveal_strlit("5");
        reveal_strlit("6");
        reveal_strlit("7");
        reveal_strlit("8");
        reveal_strlit("9");
        reveal_strlit("A");
        reveal_strlit("B");
        reveal_strlit("C");
        reveal_strlit("D");
        reveal_strlit("E");
        reveal_strlit("F");
        assert("0"@ =~= seq!['0']);
        assert("1"@ =~= seq!['1']);
        assert("2"@ =~= seq!['2']);
        assert("3"@ =~= seq!['3']);
        assert("4"@ =~= seq!['4']);
        assert("5"@ =~= seq!['5']);
        assert("6"@ =~= seq!['6']);
        assert("7"@ =~= seq!['7']);
        assert("8"@ =~= seq!['8']);
        assert("9"@ =~= seq!['9']);
        assert("A"@ =~= seq!['A']);
        assert("B"@ =~= seq!['B']);
        assert("C"@ =~= seq!['C']);
        assert("D"@ =~= seq!['D']);
        assert("E"@ =~= seq!['E']);
        assert("F"@ =~= seq!['F']);
    }
    if n == 0 {
        "0"
    } else if n == 1 {
        "1"
    } else if n == 2 {
        "2"
    } else if n == 3 {
        "3"
    } else if n == 4 {
        "4"
    } else if n == 5 {
        "5"
    } else if n == 6 {
        "6"
    } else if n == 7 {
        "7"
    } else if n == 8 {
        "8"
    } else if n == 9 {
        "9"
    } else if n == 10 {
        "A"
    } else if n == 11 {
        "B"
    } else if n == 12 {
        "C"
    } else if n == 13 {
        "D"
    } else if n == 14 {
        "E"
    } else {
        "F"
    }
}

/// Appends the `%XX` triple for one byte.
fn push_pct_byte(out: &mut String, b: u8)
    ensures
        final(out)@ == old(out)@ + spec_pct_byte(b),
{
    proof {
        reveal_strlit("%");
        assert("%"@ =~= seq!['%']);
    }
    out.append("%");
    out.append(hex_str(b / 16));
    out.append(hex_str(b % 16));
    proof {
        assert(out@ =~= old(out)@ + spec_pct_byte(b));
    }
}

/// Appends the percent-encoded UTF-8 bytes of one character.
fn push_pct_char_bytes(out: &mut String, c: char)
    ensures
        final(out)@ == old(out)@ + spec_pct_bytes(encode_scalar(c as u32)),
{
    let u = c as u32;
    proof {
        char_is_scalar(c);
    }
    if u <= 0x7F {
        let b1: u8 = (u & 0x7F) as u8;
        push_pct_byte(out, b1);
        proof {
            reveal_with_fuel(spec_pct_bytes, 6);
            assert(b1 == leading_byte_width_1(u));
            assert(encode_scalar(u) =~= seq![b1]);
            assert(seq![b1].drop_first() =~= Seq::<u8>::empty());
            assert(out@ =~= old(out)@ + spec_pct_bytes(encode_scalar(u)));
        }
    } else if u <= 0x7FF {
        let b1: u8 = 0xC0 | ((u >> 6) & 0x1F) as u8;
        let b2: u8 = 0x80 | (u & 0x3F) as u8;
        push_pct_byte(out, b1);
        push_pct_byte(out, b2);
        proof {
            reveal_with_fuel(spec_pct_bytes, 6);
            assert(b1 == leading_byte_width_2(u));
            assert(b2 == last_continuation_byte(u));
            assert(has_width_2_encoding(u));
            assert(encode_scalar(u) =~= seq![b1, b2]);
            assert(seq![b1, b2].drop_first() =~= seq![b2]);
            assert(seq![b2].drop_first() =~= Seq::<u8>::empty());
            assert(out@ =~= old(out)@ + spec_pct_bytes(encode_scalar(u)));
        }
    } else if u <= 0xFFFF {
        let b1: u8 = 0xE0 | ((u >> 12) & 0x0F) as u8;
        let b2: u8 = 0x80 | ((u >> 6) & 0x3F) as u8;
        let b3: u8 = 0x80 | (u & 0x3F) as u8;
        push_pct_byte(out, b1);
        push_pct_byte(out, b2);
        push_pct_byte(out, b3);
        proof {
            reveal_with_fuel(spec_pct_bytes, 6);
            assert(has_width_3_encoding(u));
            assert(b1 == leading_byte_width_3(u));
            assert(b2 == second_last_continuation_byte(u));
            assert(b3 == last_continuation_byte(u));
            assert(encode_scalar(u) =~= seq![b1, b2, b3]);
            assert(seq![b1, b2, b3].drop_first() =~= seq![b2, b3]);
            assert(seq![b2, b3].drop_first() =~= seq![b3]);
            assert(seq![b3].drop_first() =~= Seq::<u8>::empty());
            assert(out@ =~= old(out)@ + spec_pct_bytes(encode_scalar(u)));
        }
    } else {
        let b1: u8 = 0xF0 | ((u >> 18) & 0x7) as u8;
        let b2: u8 = 0x80 | ((u >> 12) & 0x3F) as u8;
        let b3: u8 = 0x80 | ((u >> 6) & 0x3F) as u8;
        let b4: u8 = 0x80 | (u & 0x3F) as u8;
        push_pct_byte(out, b1);
        push_pct_byte(out, b2);
        push_pct_byte(out, b3);
        push_pct_byte(out, b4);
        proof {
            reveal_with_fuel(spec_pct_bytes, 6);
            assert(has_width_4_encoding(u));
            assert(b1 == leading_byte_width_4(u));
            assert(b2 == third_last_continuation_byte(u));
            assert(b3 == second_last_continuation_byte(u));
            assert(b4 == last_continuation_byte(u));
            assert(encode_scalar(u) =~= seq![b1, b2, b3, b4]);
            assert(seq![b1, b2, b3, b4].drop_first() =~= seq![b2, b3, b4]);
            assert(seq![b2, b3, b4].drop_first() =~= seq![b3, b4]);
            assert(seq![b3, b4].drop_first() =~= seq![b4]);
            assert(seq![b4].drop_first() =~= Seq::<u8>::empty());
            assert(out@ =~= old(out)@ + spec_pct_bytes(encode_scalar(u)));
        }
    }
}

/// Percent-encodes a component under the selected character set.
fn pct_encode_sel(s: &str, path: bool) -> (r: String)
    ensures
        r@ == spec_pct_encode_sel(s@, path),
{
    let n = s.unicode_len();
    let mut out = String::new();
    let mut i: usize = 0;
    while i < n
        invariant
            i <= n,
            n == s@.len(),
            out@ == spec_pct_encode_sel(s@.take(i as int), path),
        decreases n - i,
    {
        let c = s.get_char(i);
        let u = c as u32;
        if keeps(u, path) {
            let piece = s.substring_char(i, i + 1);
            out.append(piece);
            proof {
                assert(piece@ =~= seq![c]);
            }
        } else {
            push_pct_char_bytes(&mut out, c);
        }
        proof {
            lemma_pct_encode_push(s@.take(i as int), c, path);
            assert(s@.take(i as int).push(c) =~= s@.take(i + 1 as int));
        }
        i = i + 1;
    }
    proof {
        assert(s@.take(n as int) =~= s@);
    }
    out
}

/// Percent-encodes a query component.
pub fn pct_encode_component(s: &str) -> (r: String)
    ensures
        r@ == spec_pct_encode(s@),
{
    pct_encode_sel(s, false)
}

/// Percent-encodes a path segment, leaving the characters a segment may
/// carry bare unescaped.
pub fn pct_encode_path_segment(s: &str) -> (r: String)
    ensures
        r@ == spec_pct_encode_path(s@),
{
    pct_encode_sel(s, true)
}

/// Decimal rendering of a natural number, most significant digit first.
pub open spec fn spec_dec_nat(n: nat) -> Seq<char>
    decreases n,
{
    if n < 10 {
        seq![spec_hex_char(n as u8)]
    } else {
        spec_dec_nat(n / 10) + seq![spec_hex_char((n % 10) as u8)]
    }
}

/// Decimal rendering of a signed integer: a leading minus sign when
/// negative, then the digits of its magnitude.
pub open spec fn spec_dec_i32(n: int) -> Seq<char> {
    if n < 0 {
        seq!['-'] + spec_dec_nat((-n) as nat)
    } else {
        spec_dec_nat(n as nat)
    }
}

/// Appends the decimal digits of a natural number.
fn push_dec_u64(out: &mut String, n: u64)
    ensures
        final(out)@ == old(out)@ + spec_dec_nat(n as nat),
    decreases n,
{
    if n < 10 {
        out.append(hex_str(n as u8));
    } else {
        push_dec_u64(out, n / 10);
        out.append(hex_str((n % 10) as u8));
        proof {
            assert(out@ =~= old(out)@ + spec_dec_nat(n as nat));
        }
    }
}

/// Renders a signed integer in decimal, exactly as `spec_dec_i32` states.
pub fn i32_to_dec_string(n: i32) -> (r: String)
    ensures
        r@ == spec_dec_i32(n as int),
{
    let mut out = String::new();
    if n < 0 {
        proof {
            reveal_strlit("-");
            assert("-"@ =~= seq!['-']);
        }
        out.append("-");
        let m: u64 = (-(n as i64)) as u64;
        push_dec_u64(&mut out, m);
        proof {
            assert(m as nat == (-(n as int)) as nat);
            assert(out@ =~= spec_dec_i32(n as int));
        }
    } else {
        push_dec_u64(&mut out, n as u64);
    }
    out
}

/// Appends the decimal rendering of a signed integer.
pub fn push_dec_i32(out: &mut String, n: i32)
    ensures
        final(out)@ == old(out)@ + spec_dec_i32(n as int),
{
    let piece = i32_to_dec_string(n);
    out.append(piece.as_str());
}

} // verus!
