//! Typed values encoded and decoded through interchangeable serialization
//! backends.
//!
//! The crate defines a capability contract — the [`Encoder`] and [`Decoder`]
//! traits — and two codec adapters that bind the contract to a backend: a
//! compact binary codec ([`binary::bitcode::BitCodeCodec`]) and a validated
//! zero-copy archive codec ([`binary::rkyv::RkyvCodec`]). Each adapter
//! carries a proved round-trip contract: a successful encoding of a value
//! decodes back to that value, and decoding never returns a value the byte
//! sequence does not encode.

use vstd::prelude::*;

pub mod binary;

pub use binary::bitcode::BitCodeCodec;
pub use binary::rkyv::RkyvCodec;

verus! {

/// A record with a text field and an integer field: the value type that the
/// codec adapters carry through their backends.
#[derive(Debug, Clone, PartialEq)]
pub struct Record {
    pub text: String,
    pub number: i32,
}

/// The mathematical content of a [`Record`]: its character sequence and its
/// integer, free of any representation choice.
pub struct RecordView {
    pub text: Seq<char>,
    pub number: int,
}

impl View for Record {
    type V = RecordView;

    open spec fn view(&self) -> RecordView {
        RecordView { text: self.text@, number: self.number as int }
    }
}

/// Encoding capability: a codec that can turn a value of type `T` into the
/// codec's own byte representation.
pub trait Encoder<T: View> {
    /// The codec's encoded representation, viewed as a byte sequence.
    type Encoded: View<V = Seq<u8>>;

    /// The codec's error type.
    type Error;

    /// The value, if any, that this codec reads back from a byte sequence.
    /// It is the codec's whole meaning: encoding must produce bytes that
    /// read back to the encoded value.
    spec fn decoded(bytes: Seq<u8>) -> Option<T::V>;

    /// Whether this codec's encode succeeds on every value.
    spec fn encode_total() -> bool;

    /// Encode a value into the codec's byte representation. A successful
    /// encoding reads back to the encoded value.
    fn encode(val: &T) -> (r: Result<Self::Encoded, Self::Error>)
        ensures
            (r matches Ok(e) ==> Self::decoded(e@) == Some(val@)),
            Self::encode_total() ==> r is Ok,
    ;
}

/// Decoding capability: a codec that can read a value of type `T` back out
/// of its byte representation.
pub trait Decoder<T: View> {
    /// The byte representation that this codec reads from. It may differ
    /// from the [`Encoder`]'s `Encoded` type: encoding naturally produces an
    /// owned buffer, while decoding only needs to borrow bytes from wherever
    /// they live.
    type Encoded: View<V = Seq<u8>> + ?Sized;

    /// The codec's error type.
    type Error;

    /// The value, if any, that this codec reads back from a byte sequence.
    spec fn decoded(bytes: Seq<u8>) -> Option<T::V>;

    /// Decode a value from the codec's byte representation. Decoding
    /// succeeds exactly on the byte sequences that encode some value, and
    /// returns that value: never a default and never garbage.
    fn decode(val: &Self::Encoded) -> (r: Result<T, Self::Error>)
        ensures
            r is Ok <==> Self::decoded(val@) is Some,
            (r matches Ok(v) ==> Self::decoded(val@) == Some(v@)),
    ;
}

} // verus!
