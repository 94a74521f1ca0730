use vstd::prelude::*;

use super::{apply_codec, apply_codecs, stages_left, Codec};
use crate::error::ErrorCode;

verus! {

/// A chain without stages hands the input on unchanged, both ways.
pub proof fn lemma_empty_chain<C: Codec>(input: Seq<u8>, encoding: bool)
    ensures
        apply_codecs(Seq::<C>::empty(), input, encoding) == Ok::<Seq<u8>, ErrorCode>(input),
{
}

/// Appending a stage runs it on what the chain before it produced, and an
/// error of the chain before it is passed on without running it.
pub proof fn lemma_apply_push<C: Codec>(codecs: Seq<C>, codec: C, input: Seq<u8>, encoding: bool)
    ensures
        apply_codecs(codecs.push(codec), input, encoding) == match apply_codecs(
            codecs,
            input,
            encoding,
        ) {
            Ok(out) => apply_codec(codec, out, encoding),
            Err(e) => Err(e),
        },
    decreases codecs.len(),
{
    if codecs.len() == 0 {
        assert(codecs.push(codec).drop_first() =~= Seq::<C>::empty());
        assert(codecs.push(codec)[0] == codec);
        match apply_codec(codec, input, encoding) {
            Ok(next) => {
                assert(apply_codecs(Seq::<C>::empty(), next, encoding) == Ok::<
                    Seq<u8>,
                    ErrorCode,
                >(next));
            },
            Err(e) => {},
        }
    } else {
        assert(codecs.push(codec)[0] == codecs[0]);
        assert(codecs.push(codec).drop_first() =~= codecs.drop_first().push(codec));
        match apply_codec(codecs[0], input, encoding) {
            Ok(next) => {
                lemma_apply_push(codecs.drop_first(), codec, next, encoding);
            },
            Err(e) => {},
        }
    }
}

/// The stage's `decode` gives back every input that its `encode` accepted.
pub open spec fn decode_inverts_encode<C: Codec>(codec: C) -> bool {
    forall|input: Seq<u8>|
        #[trigger] codec.spec_encode(input) matches Ok(out) ==> codec.spec_decode(out) == Ok::<
            Seq<u8>,
            ErrorCode,
        >(input)
}

/// Encoding back to front and then decoding front to back gives back the
/// input bytes, when each stage's `decode` undoes its `encode`.
pub proof fn lemma_outbound_then_inbound<C: Codec>(codecs: Seq<C>, input: Seq<u8>)
    requires
        forall|i: int| 0 <= i < codecs.len() ==> decode_inverts_encode(#[trigger] codecs[i]),
    ensures
        apply_codecs(codecs.reverse(), input, true) matches Ok(out) ==> apply_codecs(
            codecs,
            out,
            false,
        ) == Ok::<Seq<u8>, ErrorCode>(input),
    decreases codecs.len(),
{
    if codecs.len() == 0 {
        assert(codecs.reverse() =~= Seq::<C>::empty());
    } else {
        let first = codecs[0];
        let rest = codecs.drop_first();
        assert(codecs.reverse() =~= rest.reverse().push(first));
        lemma_apply_push(rest.reverse(), first, input, true);
        assert forall|i: int| 0 <= i < rest.len() implies decode_inverts_encode(
            #[trigger] rest[i],
        ) by {
            assert(rest[i] == codecs[i + 1]);
        }
        lemma_outbound_then_inbound(rest, input);
        assert(decode_inverts_encode(codecs[0]));
        match apply_codecs(rest.reverse(), input, true) {
            Ok(mid) => {
                match first.spec_encode(mid) {
                    Ok(out) => {
                        assert(first.spec_decode(out) == Ok::<Seq<u8>, ErrorCode>(mid));
                    },
                    Err(_) => {},
                }
            },
            Err(_) => {},
        }
    }
}

/// A stage applied on the way in is its `decode`, on the way out its `encode`.
pub proof fn lemma_stage_is_applied<C: Codec>(codec: C, input: Seq<u8>)
    ensures
        apply_codec(codec, input, false) == codec.spec_decode(input),
        apply_codec(codec, input, true) == codec.spec_encode(input),
{
}

/// A chain of one stage gives what that stage gives.
pub proof fn lemma_single_stage<C: Codec>(codec: C, input: Seq<u8>)
    ensures
        apply_codecs(seq![codec], input, false) == codec.spec_decode(input),
        apply_codecs(seq![codec], input, true) == codec.spec_encode(input),
{
    assert(seq![codec].drop_first() =~= Seq::<C>::empty());
    match codec.spec_decode(input) {
        Ok(out) => {
            assert(apply_codecs(Seq::<C>::empty(), out, false) == Ok::<Seq<u8>, ErrorCode>(out));
        },
        Err(_) => {},
    }
    match codec.spec_encode(input) {
        Ok(out) => {
            assert(apply_codecs(Seq::<C>::empty(), out, true) == Ok::<Seq<u8>, ErrorCode>(out));
        },
        Err(_) => {},
    }
}

/// When the first stage fails, its error is the chain's result, no later stage
/// runs, and the stages after it are the ones left.
pub proof fn lemma_first_failure<C: Codec>(codecs: Seq<C>, input: Seq<u8>, e: ErrorCode)
    requires
        codecs.len() > 0,
    ensures
        codecs[0].spec_decode(input) == Err::<Seq<u8>, ErrorCode>(e) ==> {
            &&& apply_codecs(codecs, input, false) == Err::<Seq<u8>, ErrorCode>(e)
            &&& stages_left(codecs, input, false) == codecs.drop_first()
        },
        codecs[0].spec_encode(input) == Err::<Seq<u8>, ErrorCode>(e) ==> {
            &&& apply_codecs(codecs, input, true) == Err::<Seq<u8>, ErrorCode>(e)
            &&& stages_left(codecs, input, true) == codecs.drop_first()
        },
{
}

/// When the first stage succeeds, the chain goes on with the rest of the
/// stages from that stage's output.
pub proof fn lemma_first_success<C: Codec>(codecs: Seq<C>, input: Seq<u8>, out: Seq<u8>)
    requires
        codecs.len() > 0,
    ensures
        codecs[0].spec_decode(input) == Ok::<Seq<u8>, ErrorCode>(out) ==> apply_codecs(
            codecs,
            input,
            false,
        ) == apply_codecs(codecs.drop_first(), out, false),
        codecs[0].spec_encode(input) == Ok::<Seq<u8>, ErrorCode>(out) ==> apply_codecs(
            codecs,
            input,
            true,
        ) == apply_codecs(codecs.drop_first(), out, true),
{
}

} // verus!
