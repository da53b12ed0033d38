//! The smallest pieces of the stored format: integers, strings and Ethereum addresses, as
//! `bincode` writes them under its standard configuration.
use crate::bytes::{le_bytes, le_value, lemma_be_value_bound, lemma_le_bytes_len, lemma_le_value_of_bytes,
    lemma_pow256_values, lemma_values_of_bytes, pow256};
use crate::felt::hex_digit;
use vstd::prelude::*;
use vstd::utf8::{decode_utf8, encode_utf8, valid_utf8};

verus! {

/// The error of `bincode` on writing. It is only carried.
#[verifier::external_type_specification]
#[verifier::external_body]
pub struct ExEncodeError(bincode::error::EncodeError);

/// The error of `bincode` on reading. It is only carried.
#[verifier::external_type_specification]
#[verifier::external_body]
pub struct ExDecodeError(bincode::error::DecodeError);

/// An integer as it is stored. Up to 250 it is a single byte. A larger one is a tag, which gives
/// the number of bytes that follow, and these bytes, least significant byte first.
pub open spec fn varint(n: nat) -> Seq<u8> {
    if n <= 250 {
        seq![n as u8]
    } else if n < pow256(2) {
        seq![251u8] + le_bytes(n, 2)
    } else if n < pow256(4) {
        seq![252u8] + le_bytes(n, 4)
    } else if n < pow256(8) {
        seq![253u8] + le_bytes(n, 8)
    } else {
        seq![254u8] + le_bytes(n, 16)
    }
}

/// The number of bytes that follow a tag.
pub open spec fn tag_width(tag: u8) -> nat {
    if tag <= 250 {
        0
    } else if tag == 251 {
        2
    } else if tag == 252 {
        4
    } else if tag == 253 {
        8
    } else {
        16
    }
}

/// The integer of at most `width` bytes that `s` begins with, and what follows it.
pub open spec fn unvarint(s: Seq<u8>, width: nat) -> Option<(nat, Seq<u8>)> {
    if s.len() == 0 || s[0] == 255 || tag_width(s[0]) > width || s.len() < 1 + tag_width(s[0]) {
        None
    } else if s[0] <= 250 {
        Some((s[0] as nat, s.skip(1)))
    } else {
        let end = 1 + tag_width(s[0]) as int;
        Some((le_value(s.subrange(1, end)), s.skip(end)))
    }
}

/// What was written is read back, by a reader of any type that the integer fits.
pub proof fn lemma_unvarint(n: nat, width: nat, rest: Seq<u8>)
    requires
        width == 4 || width == 8 || width == 16,
        n < pow256(width),
    ensures
        unvarint(varint(n) + rest, width) == Some((n, rest)),
{
    lemma_pow256_values();
    let s = varint(n) + rest;
    if n <= 250 {
        assert(s.skip(1) =~= rest);
    } else {
        let k: nat = if n < pow256(2) {
            2
        } else if n < pow256(4) {
            4
        } else if n < pow256(8) {
            8
        } else {
            16
        };
        lemma_le_bytes_len(n, k);
        lemma_le_value_of_bytes(n, k);
        assert(s[0] == varint(n)[0]);
        assert(tag_width(s[0]) == k);
        assert(s.subrange(1, 1 + k as int) =~= le_bytes(n, k));
        assert(s.skip(1 + k as int) =~= rest);
    }
}

/// A string as it is stored: the number of its bytes in UTF-8, then these bytes.
pub open spec fn string_encoding(s: Seq<char>) -> Seq<u8> {
    varint(encode_utf8(s).len()) + encode_utf8(s)
}

/// The string that `s` begins with, and what follows it.
pub open spec fn string_parse(s: Seq<u8>) -> Option<(Seq<char>, Seq<u8>)> {
    match unvarint(s, 8) {
        None => None,
        Some((len, tail)) => if len > tail.len() || !valid_utf8(tail.take(len as int)) {
            None
        } else {
            Some((decode_utf8(tail.take(len as int)), tail.skip(len as int)))
        },
    }
}

/// A string that was written is read back.
pub proof fn lemma_string_parse(s: Seq<char>, rest: Seq<u8>)
    requires
        encode_utf8(s).len() < pow256(8),
    ensures
        string_parse(string_encoding(s) + rest) == Some((s, rest)),
{
    let text = encode_utf8(s);
    assert(string_encoding(s) + rest =~= varint(text.len()) + (text + rest));
    lemma_unvarint(text.len(), 8, text + rest);
    assert((text + rest).take(text.len() as int) =~= text);
    assert((text + rest).skip(text.len() as int) =~= rest);
    vstd::utf8::encode_utf8_valid_utf8(s);
    vstd::utf8::encode_utf8_decode_utf8(s);
}

/// The ASCII code of a hexadecimal digit.
pub open spec fn hex_code(n: nat) -> u8 {
    hex_digit(n) as u8
}

/// An Ethereum address as it is stored: as a string, `0x` and two hexadecimal digits per byte.
pub open spec fn address_encoding(address: Seq<u8>) -> Seq<u8> {
    seq![42u8, 0x30, 0x78] + Seq::new(
        40,
        |i: int|
            if i % 2 == 0 {
                hex_code((address[i / 2] / 16) as nat)
            } else {
                hex_code((address[i / 2] % 16) as nat)
            },
    )
}

/// The Ethereum address that stored bytes begin with, and how many bytes it takes.
pub uninterp spec fn address_decoding(s: Seq<u8>) -> Option<(Seq<u8>, nat)>;

/// `bincode::serde::encode_to_vec` on an integer. It writes the integer in the variable-length
/// form, which does not depend on the integer's type, and writing to memory does not fail.
#[verifier::external_body]
pub(crate) fn encode_to_vec_integer(n: u128) -> (r: Result<Vec<u8>, bincode::error::EncodeError>)
    ensures
        r is Ok,
        r->Ok_0@ == varint(n as nat),
{
    bincode::serde::encode_to_vec(n, bincode::config::standard())
}

/// `bincode::serde::encode_to_vec` on a string. It writes the length in bytes and the bytes, and
/// writing to memory does not fail.
#[verifier::external_body]
pub(crate) fn encode_to_vec_str(s: &str) -> (r: Result<Vec<u8>, bincode::error::EncodeError>)
    ensures
        r is Ok,
        r->Ok_0@ == string_encoding(s@),
{
    bincode::serde::encode_to_vec(s, bincode::config::standard())
}

/// `bincode::serde::encode_to_vec` on a `primitive_types::H160`. It writes the address as a
/// string of lower case hexadecimal digits, writing to memory does not fail, and
/// `bincode::serde::decode_from_slice` takes exactly these bytes for the address again, whatever
/// follows them.
#[verifier::external_body]
pub(crate) fn encode_to_vec_address(address: &[u8; 20]) -> (r: Result<Vec<u8>, bincode::error::EncodeError>)
    ensures
        r is Ok,
        r->Ok_0@ == address_encoding(address@),
        forall|rest: Seq<u8>| #[trigger]
            address_decoding(r->Ok_0@ + rest) == Some((address@, r->Ok_0@.len())),
{
    bincode::serde::encode_to_vec(primitive_types::H160(*address), bincode::config::standard())
}

/// `bincode::serde::decode_from_slice` for a `u32`: the integer and the number of bytes that it
/// takes, or an error where no such integer stands at the beginning.
#[verifier::external_body]
pub(crate) fn decode_from_slice_u32(input: &[u8]) -> (r: Result<(u32, usize), bincode::error::DecodeError>)
    ensures
        match r {
            Ok((n, len)) => len <= input@.len() && unvarint(input@, 4) == Some((n as nat, input@.skip(len as int))),
            Err(_) => unvarint(input@, 4) is None,
        },
{
    bincode::serde::decode_from_slice(input, bincode::config::standard())
}

/// `bincode::serde::decode_from_slice` for a `u64`: the integer and the number of bytes that it
/// takes, or an error where no such integer stands at the beginning.
#[verifier::external_body]
pub(crate) fn decode_from_slice_u64(input: &[u8]) -> (r: Result<(u64, usize), bincode::error::DecodeError>)
    ensures
        match r {
            Ok((n, len)) => len <= input@.len() && unvarint(input@, 8) == Some((n as nat, input@.skip(len as int))),
            Err(_) => unvarint(input@, 8) is None,
        },
{
    bincode::serde::decode_from_slice(input, bincode::config::standard())
}

/// `bincode::serde::decode_from_slice` for a `u128`: the integer and the number of bytes that it
/// takes, or an error where no such integer stands at the beginning.
#[verifier::external_body]
pub(crate) fn decode_from_slice_u128(input: &[u8]) -> (r: Result<(u128, usize), bincode::error::DecodeError>)
    ensures
        match r {
            Ok((n, len)) => len <= input@.len() && unvarint(input@, 16) == Some((n as nat, input@.skip(len as int))),
            Err(_) => unvarint(input@, 16) is None,
        },
{
    bincode::serde::decode_from_slice(input, bincode::config::standard())
}

/// `bincode::serde::borrow_decode_from_slice` for a `&str`: the string and the number of bytes
/// that it takes, or an error where the length is no integer, the input ends too early or the
/// bytes are not UTF-8.
#[verifier::external_body]
pub(crate) fn borrow_decode_from_slice_str(input: &[u8]) -> (r: Result<(String, usize), bincode::error::DecodeError>)
    ensures
        match r {
            Ok((s, len)) => len <= input@.len() && string_parse(input@) == Some((s@, input@.skip(len as int))),
            Err(_) => string_parse(input@) is None,
        },
{
    let decoded = bincode::serde::borrow_decode_from_slice::<&str, _>(input, bincode::config::standard());
    decoded.map(|(s, len)| (s.to_string(), len))
}

/// `bincode::serde::decode_from_slice` for a `primitive_types::H160`: the address and the number
/// of bytes that it takes. Which strings of hexadecimal digits it accepts besides those that are
/// written is left to `address_decoding`.
#[verifier::external_body]
pub(crate) fn decode_from_slice_address(input: &[u8]) -> (r: Result<([u8; 20], usize), bincode::error::DecodeError>)
    ensures
        match r {
            Ok((address, len)) => len <= input@.len() && address_decoding(input@) == Some((address@, len as nat)),
            Err(_) => address_decoding(input@) is None,
        },
{
    let decoded = bincode::serde::decode_from_slice(input, bincode::config::standard());
    decoded.map(|(address, len): (primitive_types::H160, usize)| (address.0, len))
}

/// An integer takes one byte up to 250. A larger one is a tag and two, four, eight or sixteen bytes,
/// as few as it fits, that write the number, least significant byte first.
pub proof fn lemma_varint(n: nat)
    requires
        n < pow256(16),
    ensures
        n <= 250 ==> varint(n).len() == 1 && varint(n)[0] == n,
        n > 250 ==> {
            &&& le_value(varint(n).skip(1)) == n
            &&& varint(n)[0] == 251 && varint(n).len() == 3 && n < 0x1_0000 || varint(n)[0] == 252 && varint(n).len()
                == 5 && 0x1_0000 <= n < 0x1_0000_0000 || varint(n)[0] == 253 && varint(n).len() == 9 && 0x1_0000_0000
                <= n < 0x1_0000_0000_0000_0000 || varint(n)[0] == 254 && varint(n).len() == 17
                && 0x1_0000_0000_0000_0000 <= n
        },
{
    lemma_pow256_values();
    if n > 250 {
        let k: nat = if n < pow256(2) {
            2
        } else if n < pow256(4) {
            4
        } else if n < pow256(8) {
            8
        } else {
            16
        };
        lemma_le_bytes_len(n, k);
        lemma_le_value_of_bytes(n, k);
        assert(varint(n).skip(1) =~= le_bytes(n, k));
    }
}

/// An integer of at most eight bytes fits 64 bits.
pub proof fn lemma_unvarint_bound(s: Seq<u8>)
    ensures
        unvarint(s, 8) matches Some((n, rest)) ==> n <= u64::MAX,
{
    lemma_pow256_values();
    if s.len() > 0 && tag_width(s[0]) <= 8 && s.len() >= 1 + tag_width(s[0]) {
        let bytes = s.subrange(1, 1 + tag_width(s[0]) as int);
        lemma_values_of_bytes(0, bytes);
        lemma_be_value_bound(bytes.reverse());
    }
}

} // verus!
