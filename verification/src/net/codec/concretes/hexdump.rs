use std::sync::Arc;

use vstd::prelude::*;

use crate::buf::MemoryStream;
use crate::error::ErrorCode;
use crate::net::codec::Codec;

verus! {

/// A stage that hands every stream on unchanged.
pub struct HexDump {}

impl Codec for HexDump {
    open spec fn spec_encode(&self, input: Seq<u8>) -> Result<Seq<u8>, ErrorCode> {
        Ok(input)
    }

    open spec fn spec_decode(&self, input: Seq<u8>) -> Result<Seq<u8>, ErrorCode> {
        Ok(input)
    }

    fn encode(&self, stream: Arc<MemoryStream>) -> (r: Result<Arc<MemoryStream>, ErrorCode>) {
        Ok(stream)
    }

    fn decode(&self, stream: Arc<MemoryStream>) -> (r: Result<Arc<MemoryStream>, ErrorCode>) {
        Ok(stream)
    }
}

} // verus!
