//! Storage keys of the two indices.
//!
//! The id index is kept under `"ID_"` followed by the UTF-8 bytes of the id,
//! the address index under `"0x"` followed by the address in lower-case
//! hexadecimal. Both derivations are injective and the two namespaces never
//! meet, so every id and every address has a key of its own.

use crate::account::{Address, Id};
use crate::framing::push_bytes;
use rustc_hex::ToHex;
use vstd::prelude::*;
use vstd::utf8::*;

verus! {

/// The namespace of the id index: the bytes of `"ID_"`.
pub open spec fn id_prefix() -> Seq<u8> {
    seq![0x49u8, 0x44u8, 0x5fu8]
}

/// The namespace of the address index: the bytes of `"0x"`.
pub open spec fn address_prefix() -> Seq<u8> {
    seq![0x30u8, 0x78u8]
}

/// The key of the id index for `id`.
pub open spec fn id_key(id: Seq<char>) -> Seq<u8> {
    id_prefix() + encode_utf8(id)
}

/// The sixteen lower-case hexadecimal digits, by value.
pub open spec fn hex_digits() -> Seq<char> {
    seq!['0', '1', '2', '3', '4', '5', '6', '7', '8', '9', 'a', 'b', 'c', 'd', 'e', 'f']
}

/// The digit at position `i` of the hexadecimal text of `bytes`: even
/// positions hold the high four bits of a byte, odd positions the low four.
pub open spec fn hex_digit_at(bytes: Seq<u8>, i: int) -> char {
    if i % 2 == 0 {
        hex_digits()[(bytes[i / 2] >> 4) as int]
    } else {
        hex_digits()[(bytes[i / 2] & 0xf) as int]
    }
}

/// The lower-case hexadecimal text of `bytes`, two digits for each byte.
pub open spec fn hex_text(bytes: Seq<u8>) -> Seq<char> {
    Seq::new((2 * bytes.len()) as nat, |i: int| hex_digit_at(bytes, i))
}

/// The key of the address index for `address`.
pub open spec fn address_key(address: Seq<u8>) -> Seq<u8> {
    address_prefix() + encode_utf8(hex_text(address))
}

/// The hexadecimal text of a byte string determines it.
pub proof fn lemma_hex_text_injective(a: Seq<u8>, b: Seq<u8>)
    requires
        hex_text(a) == hex_text(b),
    ensures
        a == b,
{
    assert(hex_text(a).len() == 2 * a.len() && hex_text(b).len() == 2 * b.len());
    assert forall|i: int| 0 <= i < a.len() implies a[i] == b[i] by {
        let (x, y) = (a[i], b[i]);
        // The two digits of the byte at `i` are the same in both texts.
        assert(hex_text(a)[2 * i] == hex_digit_at(a, 2 * i));
        assert(hex_text(b)[2 * i] == hex_digit_at(b, 2 * i));
        assert(hex_text(a)[2 * i + 1] == hex_digit_at(a, 2 * i + 1));
        assert(hex_text(b)[2 * i + 1] == hex_digit_at(b, 2 * i + 1));
        assert((x >> 4) < 16 && (x & 0xf) < 16) by (bit_vector);
        assert((y >> 4) < 16 && (y & 0xf) < 16) by (bit_vector);
        assert(x == y) by (bit_vector)
            requires
                x >> 4 == y >> 4,
                x & 0xf == y & 0xf,
        ;
    }
}

/// Hexadecimal text is ASCII, so each digit takes one byte of the key.
pub proof fn lemma_hex_text_ascii(bytes: Seq<u8>)
    ensures
        is_ascii_chars(hex_text(bytes)),
        encode_utf8(hex_text(bytes)).len() == 2 * bytes.len(),
        forall|i: int|
            0 <= i < 2 * bytes.len() ==> #[trigger] encode_utf8(hex_text(bytes))[i] == hex_digit_at(
                bytes,
                i,
            ) as u8,
{
    let text = hex_text(bytes);
    assert forall|i: int| 0 <= i < text.len() implies '\0' <= #[trigger] text[i] <= '\u{7f}' by {
        let b = bytes[i / 2];
        assert((b >> 4) < 16 && (b & 0xf) < 16) by (bit_vector);
    }
    is_ascii_chars_encode_utf8(text);
}

/// An id is determined by its key.
pub proof fn lemma_id_key_injective(a: Seq<char>, b: Seq<char>)
    requires
        id_key(a) == id_key(b),
    ensures
        a == b,
{
    assert(id_key(a).subrange(3, id_key(a).len() as int) =~= encode_utf8(a));
    assert(id_key(b).subrange(3, id_key(b).len() as int) =~= encode_utf8(b));
    encode_utf8_decode_utf8(a);
    encode_utf8_decode_utf8(b);
}

/// An address is determined by its key.
pub proof fn lemma_address_key_injective(a: Seq<u8>, b: Seq<u8>)
    requires
        address_key(a) == address_key(b),
    ensures
        a == b,
{
    let (ta, tb) = (hex_text(a), hex_text(b));
    assert(address_key(a).subrange(2, address_key(a).len() as int) =~= encode_utf8(ta));
    assert(address_key(b).subrange(2, address_key(b).len() as int) =~= encode_utf8(tb));
    encode_utf8_decode_utf8(ta);
    encode_utf8_decode_utf8(tb);
    lemma_hex_text_injective(a, b);
}

/// The two namespaces are disjoint: no key of the id index is a key of the
/// address index.
pub proof fn lemma_key_namespaces_disjoint(id: Seq<char>, address: Seq<u8>)
    ensures
        id_key(id) != address_key(address),
{
    assert(id_key(id)[0] == 0x49u8);
    assert(address_key(address)[0] == 0x30u8);
}

/// The key of an address has a fixed width: the prefix and two digits for
/// each byte.
pub proof fn lemma_address_key_len(address: Seq<u8>)
    ensures
        address_key(address).len() == 2 + 2 * address.len(),
{
    lemma_hex_text_ascii(address);
}

/// True when `a` comes before `b` in the lexicographic order of byte
/// strings of one length: they agree up to some place, where `a` holds the
/// smaller byte.
pub open spec fn bytes_before(a: Seq<u8>, b: Seq<u8>) -> bool {
    exists|i: int|
        0 <= i < a.len() && i < b.len() && #[trigger] a.subrange(0, i) == b.subrange(0, i) && a[i]
            < b[i]
}

/// The keys of the address index keep the order of the addresses: of two
/// addresses of one length, the one that comes first has the key that comes
/// first.
pub proof fn lemma_address_key_keeps_order(a: Seq<u8>, b: Seq<u8>)
    requires
        a.len() == b.len(),
        bytes_before(a, b),
    ensures
        bytes_before(address_key(a), address_key(b)),
{
    let i = choose|i: int|
        0 <= i < a.len() && i < b.len() && #[trigger] a.subrange(0, i) == b.subrange(0, i) && a[i]
            < b[i];
    let (x, y) = (a[i], b[i]);
    let (ka, kb) = (address_key(a), address_key(b));
    lemma_hex_text_ascii(a);
    lemma_hex_text_ascii(b);
    assert(x >> 4 < y >> 4 || (x >> 4 == y >> 4 && x & 0xf < y & 0xf)) by (bit_vector)
        requires
            x < y,
    ;
    assert((x >> 4) < 16 && (x & 0xf) < 16 && (y >> 4) < 16 && (y & 0xf) < 16) by (bit_vector);
    let j = if x >> 4 < y >> 4 {
        2 + 2 * i
    } else {
        2 + 2 * i + 1
    };
    assert forall|k: int| 0 <= k < j implies ka[k] == kb[k] by {
        if k >= 2 {
            let p = k - 2;
            if p / 2 < i {
                assert(a[p / 2] == a.subrange(0, i)[p / 2]);
                assert(b[p / 2] == b.subrange(0, i)[p / 2]);
            }
        }
    }
    assert(ka.subrange(0, j) =~= kb.subrange(0, j));
}

/// `ToHex::to_hex` of `rustc_hex` on a byte slice, collected into a `String`.
/// For each byte it yields two characters of `0123456789abcdef`: the digit
/// of the byte's high four bits, then the digit of its low four bits. The
/// contract states this of the outside function and is taken on trust.
#[verifier::external_body]
fn to_hex(bytes: &[u8]) -> (text: String)
    ensures
        text@ == hex_text(bytes@),
{
    bytes.to_hex()
}

/// Derives the key of the id index: `"ID_"` followed by the UTF-8 bytes of
/// `id`.
pub fn make_id_key(id: &Id) -> (key: Vec<u8>)
    ensures
        key@ == id_key(id@),
{
    let mut key: Vec<u8> = Vec::new();
    key.push(0x49u8);
    key.push(0x44u8);
    key.push(0x5fu8);
    push_bytes(&mut key, id.as_str().as_bytes());
    key
}

/// Derives the key of the address index: `"0x"` followed by the 40
/// lower-case hexadecimal digits of `address`.
pub fn make_address_key(address: &Address) -> (key: Vec<u8>)
    ensures
        key@ == address_key(address@),
        key@.len() == 42,
{
    let text = to_hex(address.as_slice());
    let mut key: Vec<u8> = Vec::new();
    key.push(0x30u8);
    key.push(0x78u8);
    push_bytes(&mut key, text.as_str().as_bytes());
    proof {
        lemma_address_key_len(address@);
    }
    key
}

} // verus!
