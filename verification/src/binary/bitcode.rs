//! A codec adapter over the `bitcode` backend, a compact non-self-describing
//! binary format.

use vstd::prelude::*;

use crate::{Decoder, Encoder, Record, RecordView};

verus! {

/// A codec that relies on `bitcode` to encode and decode records.
pub struct BitCodeCodec;

#[verifier::external_type_specification]
#[verifier::external_body]
pub struct ExBitcodeError(bitcode::Error);

/// The record, if any, that the `bitcode` format assigns to a byte sequence:
/// what `bitcode::decode` reads back from it for a text/integer pair. The
/// result is a function of the input bytes alone.
pub uninterp spec fn bitcode_decoded(bytes: Seq<u8>) -> Option<RecordView>;

/// Relies on `bitcode::encode`: it is infallible, and `bitcode::decode`
/// reads the encoded value back, the crate's documented round trip.
#[verifier::external_body]
fn encode_pair(text: &String, number: i32) -> (r: Vec<u8>)
    ensures
        bitcode_decoded(r@) == Some(RecordView { text: text@, number: number as int }),
{
    bitcode::encode(&(text.clone(), number))
}

/// Relies on `bitcode::decode` for a text/integer pair: the result is a
/// function of the input bytes alone, and decoding fails exactly on the
/// bytes that do not encode such a pair.
#[verifier::external_body]
fn decode_pair(bytes: &[u8]) -> (r: Result<(String, i32), bitcode::Error>)
    ensures
        r is Ok <==> bitcode_decoded(bytes@) is Some,
        (r matches Ok(p) ==> bitcode_decoded(bytes@) == Some(
            RecordView { text: p.0@, number: p.1 as int },
        )),
{
    bitcode::decode(bytes)
}

impl Encoder<Record> for BitCodeCodec {
    type Encoded = Vec<u8>;

    type Error = bitcode::Error;

    open spec fn decoded(bytes: Seq<u8>) -> Option<RecordView> {
        bitcode_decoded(bytes)
    }

    open spec fn encode_total() -> bool {
        true
    }

    fn encode(val: &Record) -> (r: Result<Vec<u8>, bitcode::Error>) {
        Ok(encode_pair(&val.text, val.number))
    }
}

impl Decoder<Record> for BitCodeCodec {
    type Encoded = [u8];

    type Error = bitcode::Error;

    open spec fn decoded(bytes: Seq<u8>) -> Option<RecordView> {
        bitcode_decoded(bytes)
    }

    fn decode(val: &[u8]) -> (r: Result<Record, bitcode::Error>) {
        match decode_pair(val) {
            Ok(p) => Ok(Record { text: p.0, number: p.1 }),
            Err(e) => Err(e),
        }
    }
}

/// Round trip: encoding a record with the compact binary codec and decoding
/// the resulting bytes yields an equal record, for every record.
pub fn bitcode_round_trip(val: &Record) -> (r: Record)
    ensures
        r@ == val@,
{
    match BitCodeCodec::encode(val) {
        Ok(bytes) => match BitCodeCodec::decode(bytes.as_slice()) {
            Ok(v) => v,
            Err(_) => vstd::pervasive::unreached(),
        },
        Err(_) => vstd::pervasive::unreached(),
    }
}

/// Determinism: any two encodings of the same record read back to equal
/// records. Byte-for-byte equality of the two encodings is not claimed,
/// only that their decoded meanings agree.
pub proof fn lemma_bitcode_determinism(v: RecordView, b1: Seq<u8>, b2: Seq<u8>)
    requires
        bitcode_decoded(b1) == Some(v),
        bitcode_decoded(b2) == Some(v),
    ensures
        bitcode_decoded(b1) == bitcode_decoded(b2),
{
}

} // verus!
