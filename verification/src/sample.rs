use std::sync::Arc;

use vstd::prelude::*;

use crate::buf::MemoryStream;
use crate::error::ErrorCode;
use crate::net::codec::Codec;

verus! {

/// A sample stage that hands every stream on unchanged.
pub struct CodecA {}

impl Codec for CodecA {
    open spec fn spec_encode(&self, input: Seq<u8>) -> Result<Seq<u8>, ErrorCode> {
        Ok(input)
    }

    open spec fn spec_decode(&self, input: Seq<u8>) -> Result<Seq<u8>, ErrorCode> {
        Ok(input)
    }

    fn encode(&self, stream: Arc<MemoryStream>) -> (r: Result<Arc<MemoryStream>, ErrorCode>) {
        Ok(stream)
    }

    fn decode(&self, stream: Arc<MemoryStream>) -> (r: Result<Arc<MemoryStream>, ErrorCode>) {
        Ok(stream)
    }
}

/// A sample stage that hands every stream on unchanged.
pub struct CodecB {}

impl Codec for CodecB {
    open spec fn spec_encode(&self, input: Seq<u8>) -> Result<Seq<u8>, ErrorCode> {
        Ok(input)
    }

    open spec fn spec_decode(&self, input: Seq<u8>) -> Result<Seq<u8>, ErrorCode> {
        Ok(input)
    }

    fn encode(&self, stream: Arc<MemoryStream>) -> (r: Result<Arc<MemoryStream>, ErrorCode>) {
        Ok(stream)
    }

    fn decode(&self, stream: Arc<MemoryStream>) -> (r: Result<Arc<MemoryStream>, ErrorCode>) {
        Ok(stream)
    }
}

/// A sample stage that hands every stream on unchanged.
pub struct CodecC {}

impl Codec for CodecC {
    open spec fn spec_encode(&self, input: Seq<u8>) -> Result<Seq<u8>, ErrorCode> {
        Ok(input)
    }

    open spec fn spec_decode(&self, input: Seq<u8>) -> Result<Seq<u8>, ErrorCode> {
        Ok(input)
    }

    fn encode(&self, stream: Arc<MemoryStream>) -> (r: Result<Arc<MemoryStream>, ErrorCode>) {
        Ok(stream)
    }

    fn decode(&self, stream: Arc<MemoryStream>) -> (r: Result<Arc<MemoryStream>, ErrorCode>) {
        Ok(stream)
    }
}

} // verus!
