//! The host data of a guest: 32 bytes that the host adds to the launch
//! measurement, given as a hex string.

use crate::bytes::zeros;
use crate::error::{Error, HexError};
use vstd::prelude::*;
use vstd::utf8::encode_utf8;

verus! {

/// The number of bytes of host data.
pub const HOST_DATA_SIZE: usize = 32;

/// The value of a hex digit, of either case.
pub open spec fn hex_digit(c: u8) -> Option<u8> {
    if 0x30 <= c <= 0x39 {
        Some((c - 0x30) as u8)
    } else if 0x41 <= c <= 0x46 {
        Some((c - 0x41 + 10) as u8)
    } else if 0x61 <= c <= 0x66 {
        Some((c - 0x61 + 10) as u8)
    } else {
        None
    }
}

/// Whether every byte of `data` is a hex digit.
pub open spec fn all_hex_digits(data: Seq<u8>) -> bool {
    forall|i: int| 0 <= i < data.len() ==> hex_digit(#[trigger] data[i]) is Some
}

/// Whether `index` is where the first byte of `data` stands that is no hex
/// digit.
pub open spec fn first_bad_digit(data: Seq<u8>, index: int) -> bool {
    &&& 0 <= index < data.len()
    &&& hex_digit(data[index]) is None
    &&& forall|i: int| 0 <= i < index ==> hex_digit(#[trigger] data[i]) is Some
}

/// The bytes that a string of hex digits stands for: two digits give one
/// byte, the first of them its high half.
pub open spec fn hex_value(data: Seq<u8>) -> Seq<u8> {
    Seq::new(
        data.len() / 2,
        |i: int| (hex_digit(data[2 * i]).unwrap() * 16 + hex_digit(data[2 * i + 1]).unwrap()) as u8,
    )
}

/// Whether `outcome` is what decoding the hex string `data` into `len` bytes
/// gives. A string of odd length is refused first, then one of another length
/// than twice `len`, then one with a byte that is no hex digit.
pub open spec fn hex_decodes(data: Seq<u8>, len: nat, outcome: Result<Seq<u8>, HexError>) -> bool {
    match outcome {
        Ok(bytes) => data.len() == 2 * len && all_hex_digits(data) && bytes == hex_value(data),
        Err(HexError::OddLength) => data.len() % 2 != 0,
        Err(HexError::InvalidStringLength) => data.len() % 2 == 0 && data.len() != 2 * len,
        Err(HexError::InvalidHexCharacter { c, index }) => data.len() == 2 * len
            && first_bad_digit(data, index as int) && c == data[index as int] as char,
    }
}

/// Decodes the hex string `data` into `out`, by `hex::decode_to_slice`. The
/// contract claims what that function's source shows: it checks that the
/// length is even, then that it is twice that of `out`, and then turns each
/// pair of digits into a byte, stopping at the first byte that is no digit.
#[verifier::external_body]
fn hex_decode_to_slice(data: &[u8], out: &mut [u8; 32]) -> (result: Result<(), HexError>)
    ensures
        hex_decodes(
            data@,
            32,
            match result {
                Ok(()) => Ok(final(out)@),
                Err(error) => Err(error),
            },
        ),
{
    match hex::decode_to_slice(data, out) {
        Ok(()) => Ok(()),
        Err(hex::FromHexError::InvalidHexCharacter { c, index }) => Err(
            HexError::InvalidHexCharacter { c, index },
        ),
        Err(hex::FromHexError::OddLength) => Err(HexError::OddLength),
        Err(hex::FromHexError::InvalidStringLength) => Err(HexError::InvalidStringLength),
    }
}

/// The host data that a hex string stands for; without a string, 32 zero
/// bytes. A string that is not the hex form of 32 bytes is refused.
pub fn decode_host_data(host_data: &Option<String>) -> (result: Result<[u8; 32], Error>)
    ensures
        match (host_data, result) {
            (None, Ok(salt)) => salt@ == zeros(32),
            (Some(text), Ok(salt)) => hex_decodes(encode_utf8(text@), 32, Ok(salt@)),
            (Some(text), Err(Error::FailedToDecodeHostData(error))) => hex_decodes(
                encode_utf8(text@),
                32,
                Err(error),
            ),
            _ => false,
        },
{
    let mut host_data_contents = [0u8; 32];
    match host_data {
        None => {
            assert(host_data_contents@ =~= zeros(32));
            Ok(host_data_contents)
        },
        Some(text) => match hex_decode_to_slice(text.as_str().as_bytes(), &mut host_data_contents) {
            Ok(()) => Ok(host_data_contents),
            Err(error) => Err(Error::FailedToDecodeHostData(error)),
        },
    }
}

/// Decoding has one outcome: whatever two decodings of one string give is the
/// same.
pub proof fn lemma_hex_decodes_once(
    data: Seq<u8>,
    len: nat,
    first: Result<Seq<u8>, HexError>,
    second: Result<Seq<u8>, HexError>,
)
    requires
        hex_decodes(data, len, first),
        hex_decodes(data, len, second),
    ensures
        first == second,
{
    match (first, second) {
        (
            Err(HexError::InvalidHexCharacter { c: c1, index: i1 }),
            Err(HexError::InvalidHexCharacter { c: c2, index: i2 }),
        ) => {
            assert(i1 == i2) by {
                if i1 < i2 {
                    assert(hex_digit(data[i1 as int]) is Some);
                }
                if i2 < i1 {
                    assert(hex_digit(data[i2 as int]) is Some);
                }
            }
        },
        (Ok(_), Err(HexError::InvalidHexCharacter { c, index })) => {
            assert(hex_digit(data[index as int]) is Some);
        },
        (Err(HexError::InvalidHexCharacter { c, index }), Ok(_)) => {
            assert(hex_digit(data[index as int]) is Some);
        },
        _ => {},
    }
}

} // verus!
