//! The codec adapters: each binds the [`crate::Encoder`] / [`crate::Decoder`]
//! contract to one serialization backend.

pub mod bitcode;
pub mod rkyv;
