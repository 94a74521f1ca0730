use std::sync::Arc;

use vstd::prelude::*;

use super::{apply_codecs, stream_result, Codec, CodecIterator, DecodeIterator, EncodeIterator};
use crate::buf::MemoryStream;
use crate::error::ErrorCode;

verus! {

/// A chain of codecs: inbound data is decoded by each stage front to back,
/// outbound data is encoded by each stage back to front.
pub struct Processor {
    codec: Vec<Box<dyn Codec + 'static>>,
}

impl Processor {
    /// The stages, in the order they were added.
    pub closed spec fn codecs(&self) -> Seq<Box<dyn Codec>> {
        self.codec@
    }

    pub fn new() -> (p: Self)
        ensures
            p.codecs() == Seq::<Box<dyn Codec>>::empty(),
    {
        Self { codec: Vec::new() }
    }

    /// Appends `codec` as the last stage.
    pub fn add<T: Codec + 'static>(&mut self, codec: T) -> (r: &mut Self)
        ensures
            r.codecs() == old(self).codecs().push(Box::new(codec)),
            *final(self) == *final(r),
    {
        self.codec.push(Box::new(codec));
        self
    }

    /// Decodes `buffer` through every stage, front to back, stopping at the
    /// first error.
    pub fn inbound(&self, buffer: Arc<MemoryStream>) -> (r: Result<Arc<MemoryStream>, ErrorCode>)
        ensures
            stream_result(r) == apply_codecs(self.codecs(), buffer@, false),
            self.codecs().len() == 0 ==> stream_result(r) == Ok::<Seq<u8>, ErrorCode>(buffer@),
            self.codecs().len() > 0 && self.codecs()[0].spec_decode(buffer@) is Err ==> stream_result(
                r,
            ) == self.codecs()[0].spec_decode(buffer@),
    {
        DecodeIterator::new(self.codec.as_slice()).next(buffer)
    }

    /// Encodes `buffer` through every stage, back to front, stopping at the
    /// first error.
    pub fn outbound(&self, buffer: Arc<MemoryStream>) -> (r: Result<Arc<MemoryStream>, ErrorCode>)
        ensures
            stream_result(r) == apply_codecs(self.codecs().reverse(), buffer@, true),
            self.codecs().len() == 0 ==> stream_result(r) == Ok::<Seq<u8>, ErrorCode>(buffer@),
            self.codecs().len() > 0 && self.codecs().last().spec_encode(buffer@) is Err
                ==> stream_result(r) == self.codecs().last().spec_encode(buffer@),
    {
        EncodeIterator::new(self.codec.as_slice()).next(buffer)
    }
}

} // verus!
