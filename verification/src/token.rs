//! Wire format of the credential token.
//!
//! A token is the hexadecimal HMAC-SHA256 tag of the payload, a `'.'`, and
//! the payload itself. The payload serializes the claims fields: each
//! integer as the 16 hexadecimal digits of its big-endian bytes, each string
//! as a 16-digit length followed by the characters themselves. Everything
//! here except the MAC computation is verified against the spec-level
//! format; the MAC is an outside call whose result is only given a name.

use hmac::KeyInit;
use hmac::Mac;
use vstd::prelude::*;
use vstd::string::StrSliceExecFns;
use vstd::string::StringExecFns;

verus! {

/// The lower-case hexadecimal digit for a value below 16.
pub open spec fn hex_digit(n: int) -> char {
    if n == 0 {
        '0'
    } else if n == 1 {
        '1'
    } else if n == 2 {
        '2'
    } else if n == 3 {
        '3'
    } else if n == 4 {
        '4'
    } else if n == 5 {
        '5'
    } else if n == 6 {
        '6'
    } else if n == 7 {
        '7'
    } else if n == 8 {
        '8'
    } else if n == 9 {
        '9'
    } else if n == 10 {
        'a'
    } else if n == 11 {
        'b'
    } else if n == 12 {
        'c'
    } else if n == 13 {
        'd'
    } else if n == 14 {
        'e'
    } else {
        'f'
    }
}

/// The value of a lower-case hexadecimal digit, `None` for any other
/// character.
pub open spec fn hex_val(c: char) -> Option<int> {
    if c == '0' {
        Some(0int)
    } else if c == '1' {
        Some(1int)
    } else if c == '2' {
        Some(2int)
    } else if c == '3' {
        Some(3int)
    } else if c == '4' {
        Some(4int)
    } else if c == '5' {
        Some(5int)
    } else if c == '6' {
        Some(6int)
    } else if c == '7' {
        Some(7int)
    } else if c == '8' {
        Some(8int)
    } else if c == '9' {
        Some(9int)
    } else if c == 'a' {
        Some(10int)
    } else if c == 'b' {
        Some(11int)
    } else if c == 'c' {
        Some(12int)
    } else if c == 'd' {
        Some(13int)
    } else if c == 'e' {
        Some(14int)
    } else if c == 'f' {
        Some(15int)
    } else {
        None
    }
}

/// Reading back the digit of a value below 16 gives that value.
pub proof fn lemma_hex_digit_val(n: int)
    requires
        0 <= n < 16,
    ensures
        hex_val(hex_digit(n)) == Some(n),
{
}

/// The two hexadecimal digits of one byte, high nibble first.
pub open spec fn byte_hex(b: u8) -> Seq<char> {
    seq![hex_digit(b as int / 16), hex_digit(b as int % 16)]
}

/// The hexadecimal digits of a byte string, byte by byte.
pub open spec fn bytes_hex(bs: Seq<u8>) -> Seq<char>
    decreases bs.len(),
{
    if bs.len() == 0 {
        seq![]
    } else {
        byte_hex(bs.first()) + bytes_hex(bs.drop_first())
    }
}

pub proof fn lemma_bytes_hex_len(bs: Seq<u8>)
    ensures
        bytes_hex(bs).len() == 2 * bs.len(),
    decreases bs.len(),
{
    if bs.len() > 0 {
        lemma_bytes_hex_len(bs.drop_first());
    }
}

/// The digits at positions `2i` and `2i + 1` are the two digits of byte `i`.
pub proof fn lemma_bytes_hex_index(bs: Seq<u8>, i: int)
    requires
        0 <= i < bs.len(),
    ensures
        bytes_hex(bs).len() == 2 * bs.len(),
        bytes_hex(bs)[2 * i] == hex_digit(bs[i] as int / 16),
        bytes_hex(bs)[2 * i + 1] == hex_digit(bs[i] as int % 16),
    decreases i,
{
    lemma_bytes_hex_len(bs);
    lemma_bytes_hex_len(bs.drop_first());
    if i == 0 {
    } else {
        lemma_bytes_hex_index(bs.drop_first(), i - 1);
    }
}

/// The eight big-endian bytes of a 64-bit value.
pub open spec fn u64_bytes(v: u64) -> Seq<u8> {
    seq![
        (v >> 56) as u8,
        (v >> 48) as u8,
        (v >> 40) as u8,
        (v >> 32) as u8,
        (v >> 24) as u8,
        (v >> 16) as u8,
        (v >> 8) as u8,
        v as u8,
    ]
}

/// The 64-bit value with the given big-endian bytes.
pub open spec fn u64_from_bytes(b0: u8, b1: u8, b2: u8, b3: u8, b4: u8, b5: u8, b6: u8, b7: u8) -> u64 {
    ((b0 as u64) << 56) | ((b1 as u64) << 48) | ((b2 as u64) << 40) | ((b3 as u64) << 32)
        | ((b4 as u64) << 24) | ((b5 as u64) << 16) | ((b6 as u64) << 8) | (b7 as u64)
}

/// Reassembling the big-endian bytes of a value gives that value back.
pub proof fn lemma_u64_bytes_roundtrip(v: u64)
    ensures
        u64_from_bytes(
            u64_bytes(v)[0],
            u64_bytes(v)[1],
            u64_bytes(v)[2],
            u64_bytes(v)[3],
            u64_bytes(v)[4],
            u64_bytes(v)[5],
            u64_bytes(v)[6],
            u64_bytes(v)[7],
        ) == v,
{
    assert((((v >> 56) as u8 as u64) << 56) | (((v >> 48) as u8 as u64) << 48) | (((v >> 40)
        as u8 as u64) << 40) | (((v >> 32) as u8 as u64) << 32) | (((v >> 24) as u8 as u64) << 24)
        | (((v >> 16) as u8 as u64) << 16) | (((v >> 8) as u8 as u64) << 8) | (v as u8 as u64)
        == v) by (bit_vector);
}

/// The 16 hexadecimal digits of a 64-bit value, big-endian.
pub open spec fn hex16_of(v: u64) -> Seq<char> {
    bytes_hex(u64_bytes(v))
}

pub proof fn lemma_hex16_len(v: u64)
    ensures
        hex16_of(v).len() == 16,
{
    lemma_bytes_hex_len(u64_bytes(v));
}

/// The byte whose two digits stand at `pos` and `pos + 1`, if both are
/// hexadecimal digits.
pub open spec fn parse_byte_at(s: Seq<char>, pos: int) -> Option<u8> {
    match (hex_val(s[pos]), hex_val(s[pos + 1])) {
        (Some(h), Some(l)) => Some((h * 16 + l) as u8),
        _ => None,
    }
}

/// The 64-bit value whose 16 digits start at `pos`, or `None` where the
/// digits do not fit in `s` or are not hexadecimal.
pub open spec fn parse_hex16_at(s: Seq<char>, pos: int) -> Option<u64> {
    if pos < 0 || pos + 16 > s.len() {
        None
    } else {
        match (
            parse_byte_at(s, pos),
            parse_byte_at(s, pos + 2),
            parse_byte_at(s, pos + 4),
            parse_byte_at(s, pos + 6),
            parse_byte_at(s, pos + 8),
            parse_byte_at(s, pos + 10),
            parse_byte_at(s, pos + 12),
            parse_byte_at(s, pos + 14),
        ) {
            (
                Some(b0),
                Some(b1),
                Some(b2),
                Some(b3),
                Some(b4),
                Some(b5),
                Some(b6),
                Some(b7),
            ) => Some(u64_from_bytes(b0, b1, b2, b3, b4, b5, b6, b7)),
            _ => None,
        }
    }
}

/// Parsing the 16 digits of `v`, wherever they stand inside a larger
/// string, gives `v` back.
pub proof fn lemma_parse_hex16_at(s: Seq<char>, pos: int, v: u64)
    requires
        0 <= pos,
        pos + 16 <= s.len(),
        s.subrange(pos, pos + 16) == hex16_of(v),
    ensures
        parse_hex16_at(s, pos) == Some(v),
{
    lemma_hex16_len(v);
    let bs = u64_bytes(v);
    assert forall|i: int| 0 <= i < 8 implies parse_byte_at(s, pos + 2 * i) == Some(bs[i]) by {
        lemma_bytes_hex_index(bs, i);
        assert(s[pos + 2 * i] == hex16_of(v)[2 * i]);
        assert(s[pos + 2 * i + 1] == hex16_of(v)[2 * i + 1]);
        lemma_hex_digit_val(bs[i] as int / 16);
        lemma_hex_digit_val(bs[i] as int % 16);
        assert((bs[i] as int / 16) * 16 + (bs[i] as int % 16) == bs[i] as int);
    }
    assert(parse_byte_at(s, pos) == Some(bs[0]));
    assert(parse_byte_at(s, pos + 2) == Some(bs[1]));
    assert(parse_byte_at(s, pos + 4) == Some(bs[2]));
    assert(parse_byte_at(s, pos + 6) == Some(bs[3]));
    assert(parse_byte_at(s, pos + 8) == Some(bs[4]));
    assert(parse_byte_at(s, pos + 10) == Some(bs[5]));
    assert(parse_byte_at(s, pos + 12) == Some(bs[6]));
    assert(parse_byte_at(s, pos + 14) == Some(bs[7]));
    lemma_u64_bytes_roundtrip(v);
}

/// A string field on the wire: its length as 16 digits, then its
/// characters.
pub open spec fn field_of(f: Seq<char>) -> Seq<char> {
    hex16_of(f.len() as u64) + f
}

/// The field starting at `pos`: its characters and the position after it.
pub open spec fn parse_field_at(s: Seq<char>, pos: int) -> Option<(Seq<char>, int)> {
    match parse_hex16_at(s, pos) {
        Some(n) => if pos + 16 + n <= s.len() {
            Some((s.subrange(pos + 16, pos + 16 + n), pos + 16 + n))
        } else {
            None
        },
        None => None,
    }
}

/// Parsing a field serialized at `pos` gives its characters back and stops
/// right after them.
pub proof fn lemma_parse_field_at(s: Seq<char>, pos: int, f: Seq<char>)
    requires
        0 <= pos,
        f.len() < 0x1_0000_0000_0000_0000,
        pos + 16 + f.len() <= s.len(),
        s.subrange(pos, pos + 16 + f.len()) == field_of(f),
    ensures
        parse_field_at(s, pos) == Some((f, pos + 16 + f.len())),
{
    let n = f.len() as u64;
    lemma_hex16_len(n);
    assert(s.subrange(pos, pos + 16) =~= field_of(f).subrange(0, 16));
    assert(field_of(f).subrange(0, 16) =~= hex16_of(n));
    lemma_parse_hex16_at(s, pos, n);
    assert forall|i: int| 0 <= i < f.len() implies s[pos + 16 + i] == f[i] by {
        assert(s.subrange(pos, pos + 16 + f.len())[16 + i] == s[pos + 16 + i]);
        assert(field_of(f)[16 + i] == f[i]);
    }
    assert(s.subrange(pos + 16, pos + 16 + f.len()) =~= f);
}

/// The HMAC-SHA256 tag of a message under a key. Only a name: the codec
/// states tokens and their checks in terms of it, and never claims what the
/// tag is on given values.
pub uninterp spec fn mac_of(key: Seq<u8>, msg: Seq<char>) -> Seq<u8>;

/// Relies on `hmac::Hmac<sha2::Sha256>`: the tag is a function of key and
/// message alone, and SHA-256 output is 32 bytes. HMAC accepts keys of any
/// length, so `new_from_slice` cannot fail.
#[verifier::external_body]
pub(crate) fn hmac_sha256(key: &Vec<u8>, msg: &str) -> (r: Vec<u8>)
    ensures
        r@ == mac_of(key@, msg@),
        r@.len() == 32,
{
    let mut m = <hmac::Hmac<sha2::Sha256> as KeyInit>::new_from_slice(key.as_slice())
        .expect("HMAC accepts keys of any length");
    m.update(msg.as_bytes());
    m.finalize().into_bytes().as_slice().to_vec()
}

/// Relies on `String::push`: appends the given character to the end.
#[verifier::external_body]
pub(crate) fn string_push(s: &mut String, c: char)
    ensures
        final(s)@ == old(s)@.push(c),
{
    s.push(c);
}

/// The character for a nibble, as `hex_digit` states it.
fn hex_digit_char(n: u8) -> (r: char)
    requires
        n < 16,
    ensures
        r == hex_digit(n as int),
{
    if n == 0 {
        '0'
    } else if n == 1 {
        '1'
    } else if n == 2 {
        '2'
    } else if n == 3 {
        '3'
    } else if n == 4 {
        '4'
    } else if n == 5 {
        '5'
    } else if n == 6 {
        '6'
    } else if n == 7 {
        '7'
    } else if n == 8 {
        '8'
    } else if n == 9 {
        '9'
    } else if n == 10 {
        'a'
    } else if n == 11 {
        'b'
    } else if n == 12 {
        'c'
    } else if n == 13 {
        'd'
    } else if n == 14 {
        'e'
    } else {
        'f'
    }
}

/// The value of a digit character, as `hex_val` states it.
fn hex_digit_val(c: char) -> (r: Option<u8>)
    ensures
        match r {
            Some(v) => hex_val(c) == Some(v as int) && v < 16,
            None => hex_val(c) is None,
        },
{
    if c == '0' {
        Some(0u8)
    } else if c == '1' {
        Some(1u8)
    } else if c == '2' {
        Some(2u8)
    } else if c == '3' {
        Some(3u8)
    } else if c == '4' {
        Some(4u8)
    } else if c == '5' {
        Some(5u8)
    } else if c == '6' {
        Some(6u8)
    } else if c == '7' {
        Some(7u8)
    } else if c == '8' {
        Some(8u8)
    } else if c == '9' {
        Some(9u8)
    } else if c == 'a' {
        Some(10u8)
    } else if c == 'b' {
        Some(11u8)
    } else if c == 'c' {
        Some(12u8)
    } else if c == 'd' {
        Some(13u8)
    } else if c == 'e' {
        Some(14u8)
    } else if c == 'f' {
        Some(15u8)
    } else {
        None
    }
}

/// Appends the two digits of one byte.
fn push_byte_hex(out: &mut String, b: u8)
    ensures
        final(out)@ == old(out)@ + byte_hex(b),
{
    let ghost orig: Seq<char> = out@;
    let hi: u8 = b / 16;
    let lo: u8 = b % 16;
    string_push(out, hex_digit_char(hi));
    string_push(out, hex_digit_char(lo));
    assert(out@ =~= orig + byte_hex(b));
}

/// Appends the 16 digits of a 64-bit value, big-endian.
pub fn push_hex16(out: &mut String, v: u64)
    ensures
        final(out)@ == old(out)@ + hex16_of(v),
{
    let ghost orig: Seq<char> = out@;
    let b0: u8 = (v >> 56) as u8;
    let b1: u8 = (v >> 48) as u8;
    let b2: u8 = (v >> 40) as u8;
    let b3: u8 = (v >> 32) as u8;
    let b4: u8 = (v >> 24) as u8;
    let b5: u8 = (v >> 16) as u8;
    let b6: u8 = (v >> 8) as u8;
    let b7: u8 = v as u8;
    push_byte_hex(out, b0);
    push_byte_hex(out, b1);
    push_byte_hex(out, b2);
    push_byte_hex(out, b3);
    push_byte_hex(out, b4);
    push_byte_hex(out, b5);
    push_byte_hex(out, b6);
    push_byte_hex(out, b7);
    proof {
        lemma_bytes_hex_eight(b0, b1, b2, b3, b4, b5, b6, b7);
        assert(u64_bytes(v) =~= seq![b0, b1, b2, b3, b4, b5, b6, b7]);
        assert(out@ =~= orig + hex16_of(v));
    }
}

/// `bytes_hex` of an eight-byte string, written out.
proof fn lemma_bytes_hex_eight(b0: u8, b1: u8, b2: u8, b3: u8, b4: u8, b5: u8, b6: u8, b7: u8)
    ensures
        bytes_hex(seq![b0, b1, b2, b3, b4, b5, b6, b7]) == byte_hex(b0) + byte_hex(b1) + byte_hex(
            b2,
        ) + byte_hex(b3) + byte_hex(b4) + byte_hex(b5) + byte_hex(b6) + byte_hex(b7),
{
    reveal_with_fuel(bytes_hex, 10);
    assert(seq![b7].drop_first() =~= Seq::<u8>::empty());
    assert(bytes_hex(seq![b7]) =~= byte_hex(b7));
    assert(seq![b6, b7].drop_first() =~= seq![b7]);
    assert(bytes_hex(seq![b6, b7]) =~= byte_hex(b6) + byte_hex(b7));
    assert(seq![b5, b6, b7].drop_first() =~= seq![b6, b7]);
    assert(bytes_hex(seq![b5, b6, b7]) =~= byte_hex(b5) + byte_hex(b6) + byte_hex(b7));
    assert(seq![b4, b5, b6, b7].drop_first() =~= seq![b5, b6, b7]);
    assert(bytes_hex(seq![b4, b5, b6, b7]) =~= byte_hex(b4) + byte_hex(b5) + byte_hex(b6)
        + byte_hex(b7));
    assert(seq![b3, b4, b5, b6, b7].drop_first() =~= seq![b4, b5, b6, b7]);
    assert(bytes_hex(seq![b3, b4, b5, b6, b7]) =~= byte_hex(b3) + byte_hex(b4) + byte_hex(b5)
        + byte_hex(b6) + byte_hex(b7));
    assert(seq![b2, b3, b4, b5, b6, b7].drop_first() =~= seq![b3, b4, b5, b6, b7]);
    assert(bytes_hex(seq![b2, b3, b4, b5, b6, b7]) =~= byte_hex(b2) + byte_hex(b3) + byte_hex(b4)
        + byte_hex(b5) + byte_hex(b6) + byte_hex(b7));
    assert(seq![b1, b2, b3, b4, b5, b6, b7].drop_first() =~= seq![b2, b3, b4, b5, b6, b7]);
    assert(bytes_hex(seq![b1, b2, b3, b4, b5, b6, b7]) =~= byte_hex(b1) + byte_hex(b2) + byte_hex(
        b3,
    ) + byte_hex(b4) + byte_hex(b5) + byte_hex(b6) + byte_hex(b7));
    assert(seq![b0, b1, b2, b3, b4, b5, b6, b7].drop_first() =~= seq![b1, b2, b3, b4, b5, b6, b7]);
    assert(bytes_hex(seq![b0, b1, b2, b3, b4, b5, b6, b7]) =~= byte_hex(b0) + byte_hex(b1)
        + byte_hex(b2) + byte_hex(b3) + byte_hex(b4) + byte_hex(b5) + byte_hex(b6) + byte_hex(b7));
}

/// Reads the byte whose digits stand at `pos` and `pos + 1`.
fn parse_byte(s: &str, pos: usize) -> (r: Option<u8>)
    requires
        pos + 2 <= s@.len(),
        s@.len() <= usize::MAX,
    ensures
        r == parse_byte_at(s@, pos as int),
{
    let hc: char = s.get_char(pos);
    let lc: char = s.get_char(pos + 1);
    match (hex_digit_val(hc), hex_digit_val(lc)) {
        (Some(h), Some(l)) => Some(h * 16 + l),
        _ => None,
    }
}

/// Reads the 64-bit value whose 16 digits start at `pos`.
pub fn parse_hex16(s: &str, pos: usize) -> (r: Option<u64>)
    requires
        pos + 16 <= s@.len(),
        s@.len() <= usize::MAX,
    ensures
        r == parse_hex16_at(s@, pos as int),
{
    let b0: u8 = match parse_byte(s, pos) {
        Some(b) => b,
        None => {
            return None;
        },
    };
    let b1: u8 = match parse_byte(s, pos + 2) {
        Some(b) => b,
        None => {
            return None;
        },
    };
    let b2: u8 = match parse_byte(s, pos + 4) {
        Some(b) => b,
        None => {
            return None;
        },
    };
    let b3: u8 = match parse_byte(s, pos + 6) {
        Some(b) => b,
        None => {
            return None;
        },
    };
    let b4: u8 = match parse_byte(s, pos + 8) {
        Some(b) => b,
        None => {
            return None;
        },
    };
    let b5: u8 = match parse_byte(s, pos + 10) {
        Some(b) => b,
        None => {
            return None;
        },
    };
    let b6: u8 = match parse_byte(s, pos + 12) {
        Some(b) => b,
        None => {
            return None;
        },
    };
    let b7: u8 = match parse_byte(s, pos + 14) {
        Some(b) => b,
        None => {
            return None;
        },
    };
    Some(
        ((b0 as u64) << 56) | ((b1 as u64) << 48) | ((b2 as u64) << 40) | ((b3 as u64) << 32) | (
        (b4 as u64) << 24) | ((b5 as u64) << 16) | ((b6 as u64) << 8) | (b7 as u64),
    )
}

/// Reads the field starting at `pos`: its characters and the position
/// after it.
pub fn parse_field(s: &str, pos: usize) -> (r: Option<(String, usize)>)
    requires
        pos <= s@.len(),
        s@.len() <= usize::MAX,
    ensures
        match r {
            Some(f) => parse_field_at(s@, pos as int) == Some((f.0@, f.1 as int)) && pos + 16
                <= f.1 <= s@.len(),
            None => parse_field_at(s@, pos as int) is None,
        },
{
    let n: usize = s.unicode_len();
    if n - pos < 16 {
        return None;
    }
    match parse_hex16(s, pos) {
        None => None,
        Some(v) => {
            let rem: usize = n - pos - 16;
            if v > rem as u64 {
                None
            } else {
                let flen: usize = v as usize;
                let f: &str = s.substring_char(pos + 16, pos + 16 + flen);
                Some((String::from_str(f), pos + 16 + flen))
            }
        },
    }
}

/// The hexadecimal digits of a byte string, as `bytes_hex` states them.
pub fn bytes_to_hex(bs: &Vec<u8>) -> (r: String)
    ensures
        r@ == bytes_hex(bs@),
{
    let mut out = String::new();
    assert(bs@.skip(0) =~= bs@);
    for i in 0..bs.len()
        invariant
            out@ + bytes_hex(bs@.skip(i as int)) == bytes_hex(bs@),
            out@.len() == 2 * i,
    {
        proof {
            lemma_bytes_hex_len(bs@.skip(i as int));
            assert(bs@.skip(i as int).drop_first() =~= bs@.skip(i as int + 1));
        }
        push_byte_hex(&mut out, bs[i]);
    }
    assert(bs@.skip(bs@.len() as int) =~= Seq::<u8>::empty());
    out
}

} // verus!
