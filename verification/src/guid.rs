//! Globally unique identifiers of archive records: building one from two
//! 64-bit halves, reading one from text, drawing a random one, and writing
//! one in the hyphenated form.

use vstd::prelude::*;

verus! {

/// A 128-bit identifier, held as its 16 bytes in big-endian order (the
/// order in which the `uuid` crate stores and prints them).
#[derive(Debug, Clone, Copy, PartialEq, Eq)]
pub struct Guid {
    pub bytes: [u8; 16],
}

impl View for Guid {
    type V = Seq<u8>;

    open spec fn view(&self) -> Seq<u8> {
        self.bytes@
    }
}

/// Byte `k` (`0 <= k < 8`, most significant first) of the big-endian
/// encoding of `x`.
pub open spec fn be_byte(x: u64, k: int) -> u8 {
    ((x >> ((56 - 8 * k) as u64)) & 0xff) as u8
}

/// The eight bytes of `x` in big-endian order (`u64::to_be_bytes`).
pub open spec fn be_bytes(x: u64) -> Seq<u8> {
    Seq::new(8, |k: int| be_byte(x, k))
}

/// The bytes of the identifier whose first half holds `most` and whose
/// second half holds `least`, both in two's complement, big-endian.
pub open spec fn guid_from_halves(most: i64, least: i64) -> Seq<u8> {
    be_bytes(most as u64) + be_bytes(least as u64)
}

fn shifted_byte(x: u64, shift: u64) -> (res: u8)
    requires
        shift < 64,
    ensures
        res == ((x >> shift) & 0xff) as u8,
{
    ((x >> shift) & 0xff) as u8
}

/// Builds an identifier from two signed 64-bit halves: the big-endian bytes
/// of `most_sig_bits` followed by those of `least_sig_bits`.
pub fn create_uuid(most_sig_bits: i64, least_sig_bits: i64) -> (res: Guid)
    ensures
        res@ == guid_from_halves(most_sig_bits, least_sig_bits),
{
    let m: u64 = most_sig_bits as u64;
    let l: u64 = least_sig_bits as u64;
    let bytes: [u8; 16] = [
        shifted_byte(m, 56),
        shifted_byte(m, 48),
        shifted_byte(m, 40),
        shifted_byte(m, 32),
        shifted_byte(m, 24),
        shifted_byte(m, 16),
        shifted_byte(m, 8),
        shifted_byte(m, 0),
        shifted_byte(l, 56),
        shifted_byte(l, 48),
        shifted_byte(l, 40),
        shifted_byte(l, 32),
        shifted_byte(l, 24),
        shifted_byte(l, 16),
        shifted_byte(l, 8),
        shifted_byte(l, 0),
    ];
    let res = Guid { bytes };
    assert(res@ =~= guid_from_halves(most_sig_bits, least_sig_bits));
    res
}

proof fn lemma_be_bytes_injective(x: u64, y: u64)
    requires
        be_bytes(x) == be_bytes(y),
    ensures
        x == y,
{
    assert(be_bytes(x)[0] == be_byte(x, 0) && be_bytes(y)[0] == be_byte(y, 0));
    assert(be_byte(x, 0) == ((x >> 56u64) & 0xff) as u8 && be_byte(y, 0) == ((y >> 56u64) & 0xff) as u8);
    assert(be_bytes(x)[1] == be_byte(x, 1) && be_bytes(y)[1] == be_byte(y, 1));
    assert(be_byte(x, 1) == ((x >> 48u64) & 0xff) as u8 && be_byte(y, 1) == ((y >> 48u64) & 0xff) as u8);
    assert(be_bytes(x)[2] == be_byte(x, 2) && be_bytes(y)[2] == be_byte(y, 2));
    assert(be_byte(x, 2) == ((x >> 40u64) & 0xff) as u8 && be_byte(y, 2) == ((y >> 40u64) & 0xff) as u8);
    assert(be_bytes(x)[3] == be_byte(x, 3) && be_bytes(y)[3] == be_byte(y, 3));
    assert(be_byte(x, 3) == ((x >> 32u64) & 0xff) as u8 && be_byte(y, 3) == ((y >> 32u64) & 0xff) as u8);
    assert(be_bytes(x)[4] == be_byte(x, 4) && be_bytes(y)[4] == be_byte(y, 4));
    assert(be_byte(x, 4) == ((x >> 24u64) & 0xff) as u8 && be_byte(y, 4) == ((y >> 24u64) & 0xff) as u8);
    assert(be_bytes(x)[5] == be_byte(x, 5) && be_bytes(y)[5] == be_byte(y, 5));
    assert(be_byte(x, 5) == ((x >> 16u64) & 0xff) as u8 && be_byte(y, 5) == ((y >> 16u64) & 0xff) as u8);
    assert(be_bytes(x)[6] == be_byte(x, 6) && be_bytes(y)[6] == be_byte(y, 6));
    assert(be_byte(x, 6) == ((x >> 8u64) & 0xff) as u8 && be_byte(y, 6) == ((y >> 8u64) & 0xff) as u8);
    assert(be_bytes(x)[7] == be_byte(x, 7) && be_bytes(y)[7] == be_byte(y, 7));
    assert(be_byte(x, 7) == ((x >> 0u64) & 0xff) as u8 && be_byte(y, 7) == ((y >> 0u64) & 0xff) as u8);
    assert(x == y) by (bit_vector)
        requires
            ((x >> 56u64) & 0xff) as u8 == ((y >> 56u64) & 0xff) as u8,
            ((x >> 48u64) & 0xff) as u8 == ((y >> 48u64) & 0xff) as u8,
            ((x >> 40u64) & 0xff) as u8 == ((y >> 40u64) & 0xff) as u8,
            ((x >> 32u64) & 0xff) as u8 == ((y >> 32u64) & 0xff) as u8,
            ((x >> 24u64) & 0xff) as u8 == ((y >> 24u64) & 0xff) as u8,
            ((x >> 16u64) & 0xff) as u8 == ((y >> 16u64) & 0xff) as u8,
            ((x >> 8u64) & 0xff) as u8 == ((y >> 8u64) & 0xff) as u8,
            ((x >> 0u64) & 0xff) as u8 == ((y >> 0u64) & 0xff) as u8,
    ;
}

/// Identifiers built from halves are equal only when the halves are: the
/// identifier of an inventory structure, built from its class number, is
/// different for different class numbers.
pub proof fn lemma_guid_from_halves_injective(m1: i64, l1: i64, m2: i64, l2: i64)
    requires
        guid_from_halves(m1, l1) == guid_from_halves(m2, l2),
    ensures
        m1 == m2,
        l1 == l2,
{
    let a = guid_from_halves(m1, l1);
    let b = guid_from_halves(m2, l2);
    assert(a.subrange(0, 8) =~= be_bytes(m1 as u64));
    assert(b.subrange(0, 8) =~= be_bytes(m2 as u64));
    assert(a.subrange(8, 16) =~= be_bytes(l1 as u64));
    assert(b.subrange(8, 16) =~= be_bytes(l2 as u64));
    lemma_be_bytes_injective(m1 as u64, m2 as u64);
    lemma_be_bytes_injective(l1 as u64, l2 as u64);
    assert(m1 == m2) by (bit_vector)
        requires
            m1 as u64 == m2 as u64,
    ;
    assert(l1 == l2) by (bit_vector)
        requires
            l1 as u64 == l2 as u64,
    ;
}


/// The lowercase hexadecimal digit of a nibble (`0 <= n < 16`).
pub open spec fn hex_lower(n: int) -> char {
    if n < 10 {
        (48 + n) as char
    } else {
        (87 + n) as char
    }
}

/// Two lowercase hexadecimal digits per byte, in order.
pub open spec fn hex_pairs(b: Seq<u8>) -> Seq<char>
    decreases b.len(),
{
    if b.len() == 0 {
        seq![]
    } else {
        seq![hex_lower((b[0] / 16) as int), hex_lower((b[0] % 16) as int)] + hex_pairs(b.drop_first())
    }
}

/// The hyphenated lowercase form of a 16-byte identifier: 32 hexadecimal
/// digits in groups of 8, 4, 4, 4 and 12, separated by `-`.
pub open spec fn hyphenated_text(b: Seq<u8>) -> Seq<char> {
    hex_pairs(b.subrange(0, 4)) + seq!['-'] + hex_pairs(b.subrange(4, 6)) + seq!['-']
        + hex_pairs(b.subrange(6, 8)) + seq!['-'] + hex_pairs(b.subrange(8, 10)) + seq!['-']
        + hex_pairs(b.subrange(10, 16))
}

/// Writes an identifier in its hyphenated lowercase form, through the
/// `Display` impl of `uuid::Uuid` (built with `Uuid::from_bytes`). Claimed of
/// it: the text is `hyphenated_text` of the 16 bytes, which is what the
/// crate's `format_hyphenated` writes with lowercase digits.
#[verifier::external_body]
pub(crate) fn hyphenated(g: &Guid) -> (res: String)
    ensures
        res@ == hyphenated_text(g@),
{
    uuid::Uuid::from_bytes(g.bytes).to_string()
}

/// Whether `c` is an ASCII hexadecimal digit of either case.
pub open spec fn is_hex_char(c: char) -> bool {
    ||| (48 <= (c as u32) && (c as u32) <= 57)
    ||| (65 <= (c as u32) && (c as u32) <= 70)
    ||| (97 <= (c as u32) && (c as u32) <= 102)
}

/// The value of an ASCII hexadecimal digit.
pub open spec fn hex_value(c: char) -> int {
    if (c as u32) <= 57 {
        (c as u32) - 48
    } else if (c as u32) <= 70 {
        (c as u32) - 55
    } else {
        (c as u32) - 87
    }
}

/// Whether position `i` of a 36-character hyphenated identifier holds a `-`.
pub open spec fn is_hyphen_position(i: int) -> bool {
    i == 8 || i == 13 || i == 18 || i == 23
}

/// Whether `t` is an identifier in hyphenated form: 36 characters, `-` at
/// positions 8, 13, 18 and 23, hexadecimal digits of either case elsewhere.
pub open spec fn is_hyphenated_form(t: Seq<char>) -> bool {
    &&& t.len() == 36
    &&& forall|i: int| 0 <= i < 36 ==> if is_hyphen_position(i) {
        t[i] == '-'
    } else {
        is_hex_char(#[trigger] t[i])
    }
}

/// The position in hyphenated text of hexadecimal digit `n` (`0 <= n < 32`).
pub open spec fn nibble_position(n: int) -> int {
    if n < 8 {
        n
    } else if n < 12 {
        n + 1
    } else if n < 16 {
        n + 2
    } else if n < 20 {
        n + 3
    } else {
        n + 4
    }
}

/// The 16 bytes that a text in hyphenated form denotes: byte `j` is made of
/// hexadecimal digits `2j` (high) and `2j + 1` (low).
pub open spec fn hyphenated_value(t: Seq<char>) -> Seq<u8> {
    Seq::new(
        16,
        |j: int|
            (hex_value(t[nibble_position(2 * j)]) * 16 + hex_value(t[nibble_position(2 * j + 1)])) as u8,
    )
}

/// What `uuid::Uuid::parse_str` gives for a text: the bytes it reads, or
/// `None` where it returns an error.
pub uninterp spec fn parsed_uuid(text: Seq<char>) -> Option<Seq<u8>>;

/// Reads an identifier from text with `uuid::Uuid::parse_str` (taking its
/// bytes with `Uuid::into_bytes`). Claimed of it: the result is the named
/// outcome of `parse_str` on the text, and a text in hyphenated form (36
/// ASCII characters, hyphens at 8, 13, 18, 23, hex digits elsewhere, as the
/// crate's `parse_hyphenated` and `decode_hex32` read it) is read as the
/// bytes it spells.
#[verifier::external_body]
pub(crate) fn parse_guid(text: &str) -> (res: Option<Guid>)
    ensures
        res is Some <==> parsed_uuid(text@) is Some,
        res is Some ==> parsed_uuid(text@) == Some(res.unwrap()@),
        is_hyphenated_form(text@) ==> (res is Some && res.unwrap()@ == hyphenated_value(text@)),
{
    match uuid::Uuid::parse_str(text) {
        Ok(u) => Some(Guid { bytes: u.into_bytes() }),
        Err(_) => None,
    }
}

/// Whether an identifier carries the version-4 (random) marks: version
/// nibble 4 in byte 6 and variant bits `10` at the top of byte 8.
pub open spec fn is_random_guid(b: Seq<u8>) -> bool {
    &&& b.len() == 16
    &&& b[6] / 16 == 4
    &&& b[8] / 64 == 2
}

/// Draws a random identifier with `uuid::Uuid::new_v4`. Claimed of it: only
/// the version and variant bits that `new_v4` sets on every result.
#[verifier::external_body]
pub(crate) fn random_guid() -> (res: Guid)
    ensures
        is_random_guid(res@),
{
    Guid { bytes: uuid::Uuid::new_v4().into_bytes() }
}

} // verus!
