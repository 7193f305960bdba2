//! A codec adapter over the `rkyv` backend, a validated zero-copy archive
//! format.

use vstd::prelude::*;

use crate::{Decoder, Encoder, Record, RecordView};

verus! {

/// A codec that relies on `rkyv` to encode and decode records.
pub struct RkyvCodec;

#[verifier::external_type_specification]
#[verifier::external_body]
pub struct ExRancorError(rkyv::rancor::Error);

/// The record, if any, that the `rkyv` archive format assigns to a byte
/// sequence: what `rkyv::api::high::from_bytes` — validation followed by
/// deserialization — reads back from a maximally aligned buffer holding
/// those bytes, for a text/integer pair. rkyv's validation checks absolute
/// addresses, so this crate always presents the bytes at the backend's own
/// `AlignedVec` alignment; the result is then a function of the byte
/// contents alone.
pub uninterp spec fn rkyv_decoded(bytes: Seq<u8>) -> Option<RecordView>;

/// Relies on `rkyv::api::high::to_bytes`: a successful archive reads back
/// to the archived value through `from_bytes`, the crate's documented round
/// trip. Serialization itself may fail (for example on resource
/// exhaustion), so nothing is promised of the error case.
#[verifier::external_body]
fn encode_pair(text: &String, number: i32) -> (r: Result<Vec<u8>, rkyv::rancor::Error>)
    ensures
        (r matches Ok(b) ==> rkyv_decoded(b@) == Some(
            RecordView { text: text@, number: number as int },
        )),
{
    match rkyv::api::high::to_bytes::<rkyv::rancor::Error>(&(text.clone(), number)) {
        Ok(bytes) => Ok(bytes.into_vec()),
        Err(e) => Err(e),
    }
}

/// Relies on `rkyv::api::high::from_bytes` for a text/integer pair, called
/// on an `AlignedVec` copy of the input. rkyv validates absolute addresses,
/// so reading from an arbitrarily placed slice could fail on alignment;
/// reading from the 16-byte-aligned copy makes the result a function of the
/// input bytes alone, failing exactly on the bytes that do not pass
/// validation and deserialization for such a pair.
#[verifier::external_body]
fn decode_pair(bytes: &[u8]) -> (r: Result<(String, i32), rkyv::rancor::Error>)
    ensures
        r is Ok <==> rkyv_decoded(bytes@) is Some,
        (r matches Ok(p) ==> rkyv_decoded(bytes@) == Some(
            RecordView { text: p.0@, number: p.1 as int },
        )),
{
    let mut aligned = rkyv::util::AlignedVec::<16>::new();
    aligned.extend_from_slice(bytes);
    rkyv::api::high::from_bytes::<(String, i32), rkyv::rancor::Error>(aligned.as_slice())
}

impl Encoder<Record> for RkyvCodec {
    type Encoded = Vec<u8>;

    type Error = rkyv::rancor::Error;

    open spec fn decoded(bytes: Seq<u8>) -> Option<RecordView> {
        rkyv_decoded(bytes)
    }

    open spec fn encode_total() -> bool {
        false
    }

    fn encode(val: &Record) -> (r: Result<Vec<u8>, rkyv::rancor::Error>) {
        encode_pair(&val.text, val.number)
    }
}

impl Decoder<Record> for RkyvCodec {
    type Encoded = [u8];

    type Error = rkyv::rancor::Error;

    open spec fn decoded(bytes: Seq<u8>) -> Option<RecordView> {
        rkyv_decoded(bytes)
    }

    fn decode(val: &[u8]) -> (r: Result<Record, rkyv::rancor::Error>) {
        match decode_pair(val) {
            Ok(p) => Ok(Record { text: p.0, number: p.1 }),
            Err(e) => Err(e),
        }
    }
}

/// Round trip: when the archive codec encodes a record successfully,
/// decoding the resulting bytes yields an equal record, for every record.
/// `None` is returned only when the backend's serializer itself failed; a
/// successful encoding is never decoded to anything but the encoded record.
pub fn rkyv_round_trip(val: &Record) -> (r: Option<Record>)
    ensures
        (r matches Some(v) ==> v@ == val@),
{
    match RkyvCodec::encode(val) {
        Ok(bytes) => match RkyvCodec::decode(bytes.as_slice()) {
            Ok(v) => Some(v),
            Err(_) => vstd::pervasive::unreached(),
        },
        Err(_) => None,
    }
}

/// Determinism: any two encodings of the same record read back to equal
/// records. Byte-for-byte equality of the two encodings is not claimed,
/// only that their decoded meanings agree.
pub proof fn lemma_rkyv_determinism(v: RecordView, b1: Seq<u8>, b2: Seq<u8>)
    requires
        rkyv_decoded(b1) == Some(v),
        rkyv_decoded(b2) == Some(v),
    ensures
        rkyv_decoded(b1) == rkyv_decoded(b2),
{
}

} // verus!
