use std::sync::Arc;

use vstd::prelude::*;

use crate::buf::MemoryStream;
use crate::error::ErrorCode;

pub mod concretes;
pub mod laws;
pub mod processor;

pub use concretes::HexDump;
pub use processor::Processor;

verus! {

/// A stage of the processing chain: turns a stream into another one on the
/// way out (`encode`) and on the way in (`decode`), or fails with a code.
/// What a stage does is a function of the bytes it is given, named by
/// `spec_encode` and `spec_decode`.
pub trait Codec {
    spec fn spec_encode(&self, input: Seq<u8>) -> Result<Seq<u8>, ErrorCode>;

    spec fn spec_decode(&self, input: Seq<u8>) -> Result<Seq<u8>, ErrorCode>;

    fn encode(&self, stream: Arc<MemoryStream>) -> (r: Result<Arc<MemoryStream>, ErrorCode>)
        ensures
            stream_result(r) == self.spec_encode(stream@),
    ;

    fn decode(&self, stream: Arc<MemoryStream>) -> (r: Result<Arc<MemoryStream>, ErrorCode>)
        ensures
            stream_result(r) == self.spec_decode(stream@),
    ;
}

/// The bytes of a resulting stream, or the error.
pub open spec fn stream_result(r: Result<Arc<MemoryStream>, ErrorCode>) -> Result<
    Seq<u8>,
    ErrorCode,
> {
    match r {
        Ok(s) => Ok(s@),
        Err(e) => Err(e),
    }
}

/// One stage applied to `input`: its `encode` when `encoding`, else its `decode`.
pub open spec fn apply_codec<C: Codec>(codec: C, input: Seq<u8>, encoding: bool) -> Result<
    Seq<u8>,
    ErrorCode,
> {
    if encoding {
        codec.spec_encode(input)
    } else {
        codec.spec_decode(input)
    }
}

/// Runs `input` through `codecs` in order, stopping at the first error.
pub open spec fn apply_codecs<C: Codec>(
    codecs: Seq<C>,
    input: Seq<u8>,
    encoding: bool,
) -> Result<Seq<u8>, ErrorCode>
    decreases codecs.len(),
{
    if codecs.len() == 0 {
        Ok(input)
    } else {
        match apply_codec(codecs[0], input, encoding) {
            Ok(next) => apply_codecs(codecs.drop_first(), next, encoding),
            Err(e) => Err(e),
        }
    }
}

/// The stages of `codecs` that are left after running `input` through them:
/// none when every stage succeeds, else those after the first that fails.
pub open spec fn stages_left<C: Codec>(
    codecs: Seq<C>,
    input: Seq<u8>,
    encoding: bool,
) -> Seq<C>
    decreases codecs.len(),
{
    if codecs.len() == 0 {
        codecs
    } else {
        match apply_codec(codecs[0], input, encoding) {
            Ok(next) => stages_left(codecs.drop_first(), next, encoding),
            Err(_) => codecs.drop_first(),
        }
    }
}

/// A boxed stage is a stage: it does what the stage inside it does.
impl Codec for Box<dyn Codec> {
    open spec fn spec_encode(&self, input: Seq<u8>) -> Result<Seq<u8>, ErrorCode> {
        (**self).spec_encode(input)
    }

    open spec fn spec_decode(&self, input: Seq<u8>) -> Result<Seq<u8>, ErrorCode> {
        (**self).spec_decode(input)
    }

    fn encode(&self, stream: Arc<MemoryStream>) -> (r: Result<Arc<MemoryStream>, ErrorCode>) {
        (**self).encode(stream)
    }

    fn decode(&self, stream: Arc<MemoryStream>) -> (r: Result<Arc<MemoryStream>, ErrorCode>) {
        (**self).decode(stream)
    }
}

pub(crate) trait CodecIterator {
    /// What running the remaining stages on `input` gives.
    spec fn spec_run(&self, input: Seq<u8>) -> Result<Seq<u8>, ErrorCode>;

    fn next(&mut self, stream: Arc<MemoryStream>) -> (r: Result<Arc<MemoryStream>, ErrorCode>)
        ensures
            stream_result(r) == old(self).spec_run(stream@),
    ;
}

/// Walks a chain front to back, decoding.
pub(crate) struct DecodeIterator<'a> {
    codecs: &'a [Box<dyn Codec>],
}

impl<'a> DecodeIterator<'a> {
    /// The stages not yet run, in the order they run.
    pub closed spec fn pending(&self) -> Seq<Box<dyn Codec>> {
        self.codecs@
    }

    /// An iterator over `codecs`, front to back.
    #[inline]
    pub fn new(codecs: &'a [Box<dyn Codec>]) -> (r: Self)
        ensures
            r.pending() == codecs@,
    {
        Self { codecs }
    }
}

impl<'a> CodecIterator for DecodeIterator<'a> {
    open spec fn spec_run(&self, input: Seq<u8>) -> Result<Seq<u8>, ErrorCode> {
        apply_codecs(self.pending(), input, false)
    }

    /// Decodes `stream` through the pending stages in order, stopping after
    /// the first that fails.
    fn next(&mut self, stream: Arc<MemoryStream>) -> (r: Result<Arc<MemoryStream>, ErrorCode>)
        ensures
            stream_result(r) == apply_codecs(old(self).pending(), stream@, false),
            final(self).pending() == stages_left(old(self).pending(), stream@, false),
            old(self).pending().len() == 0 ==> stream_result(r) == Ok::<Seq<u8>, ErrorCode>(
                stream@,
            ),
            old(self).pending().len() > 0 && old(self).pending()[0].spec_decode(stream@) is Err
                ==> stream_result(r) == old(self).pending()[0].spec_decode(stream@),
        decreases old(self).pending().len(),
    {
        if self.codecs.len() == 0 {
            return Ok(stream);
        }
        let (first, rest) = self.codecs.split_at(1);
        let codec = &first[0];
        self.codecs = rest;
        assert(rest@ =~= old(self).pending().drop_first());
        match codec.decode(stream) {
            Ok(stream) => self.next(stream),
            Err(e) => Err(e),
        }
    }
}

/// Walks a chain back to front, encoding.
pub(crate) struct EncodeIterator<'a> {
    codecs: &'a [Box<dyn Codec>],
}

impl<'a> EncodeIterator<'a> {
    /// The stages not yet run, in the order they run.
    pub closed spec fn pending(&self) -> Seq<Box<dyn Codec>> {
        self.codecs@.reverse()
    }

    /// An iterator over `codecs`, back to front.
    #[inline]
    pub fn new(codecs: &'a [Box<dyn Codec>]) -> (r: Self)
        ensures
            r.pending() == codecs@.reverse(),
    {
        Self { codecs }
    }
}

impl<'a> CodecIterator for EncodeIterator<'a> {
    open spec fn spec_run(&self, input: Seq<u8>) -> Result<Seq<u8>, ErrorCode> {
        apply_codecs(self.pending(), input, true)
    }

    /// Encodes `stream` through the pending stages in order (the chain back
    /// to front), stopping after the first that fails.
    fn next(&mut self, stream: Arc<MemoryStream>) -> (r: Result<Arc<MemoryStream>, ErrorCode>)
        ensures
            stream_result(r) == apply_codecs(old(self).pending(), stream@, true),
            final(self).pending() == stages_left(old(self).pending(), stream@, true),
            old(self).pending().len() == 0 ==> stream_result(r) == Ok::<Seq<u8>, ErrorCode>(
                stream@,
            ),
            old(self).pending().len() > 0 && old(self).pending()[0].spec_encode(stream@) is Err
                ==> stream_result(r) == old(self).pending()[0].spec_encode(stream@),
        decreases old(self).pending().len(),
    {
        let n = self.codecs.len();
        if n == 0 {
            assert(old(self).pending() =~= Seq::<Box<dyn Codec>>::empty());
            return Ok(stream);
        }
        let (rest, last) = self.codecs.split_at(n - 1);
        let codec = &last[0];
        self.codecs = rest;
        assert(rest@.reverse() =~= old(self).pending().drop_first());
        match codec.encode(stream) {
            Ok(stream) => self.next(stream),
            Err(e) => Err(e),
        }
    }
}

} // verus!
