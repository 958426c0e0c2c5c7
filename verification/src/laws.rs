//! What holds across the services: one trace over all hops, one failure
//! for every cause, and no span left open.

use crate::context::SpanContext;
use crate::gateway::{answered, WORDS_SPAN};
use crate::messages::WordsResponse;
use crate::propagator::{
    extracted, injected, lemma_extracted_valid, lemma_inject_then_extract,
};
use crate::provider::ProviderView;
use crate::rpc::{settled, settled_span, DownstreamError, Failure};
use crate::signer::SIGN_SPAN;
use crate::span::{started_span, SpanView};
use crate::stamp::Stamp;
use crate::words::{GENERATE_SPAN, SIGNATURE_SPAN};
use vstd::prelude::*;

verus! {

/// The span that a service starts for a call that reached it with
/// `carrier`: started under the context read from the carrier, with the
/// values drawn for it.
pub open spec fn hop(
    name: Seq<char>,
    carrier: Map<Seq<char>, Seq<char>>,
    default_sampled: bool,
    stamp: Stamp,
) -> SpanView {
    started_span(
        name,
        extracted(carrier, default_sampled, stamp.trace_id),
        stamp.span_id,
        stamp.millis,
    )
}

/// The carrier that goes out with a call made under `span`.
pub open spec fn outbound(span: SpanView) -> Map<Seq<char>, Seq<char>> {
    injected(Map::empty(), span.context)
}

/// A span that was just started belongs to a valid trace and has a span
/// identifier of its own: it is open, it is not a root context, and it
/// differs from the context it was started under.
pub proof fn lemma_started_span(
    name: Seq<char>,
    carrier: Map<Seq<char>, Seq<char>>,
    default_sampled: bool,
    stamp: Stamp,
)
    ensures
        hop(name, carrier, default_sampled, stamp).is_open(),
        hop(name, carrier, default_sampled, stamp).context.is_valid(),
        !hop(name, carrier, default_sampled, stamp).context.is_root(),
{
    lemma_extracted_valid(carrier, default_sampled, stamp.trace_id);
}

/// One hop: a span started downstream of `caller`, for a call that went
/// out under it, belongs to the caller's trace, keeps its sampling
/// decision, has the caller's context as its parent, and a span identifier
/// other than the caller's. This holds whatever was drawn downstream and
/// whatever the downstream provider's default decision is.
pub proof fn lemma_next_hop(
    caller: SpanView,
    name: Seq<char>,
    default_sampled: bool,
    stamp: Stamp,
)
    requires
        caller.context.is_valid(),
        !caller.context.is_root(),
    ensures
        hop(name, outbound(caller), default_sampled, stamp).context.trace_id
            == caller.context.trace_id,
        hop(name, outbound(caller), default_sampled, stamp).context.sampled
            == caller.context.sampled,
        hop(name, outbound(caller), default_sampled, stamp).parent == Some(caller.context),
        hop(name, outbound(caller), default_sampled, stamp).context.span_id
            != caller.context.span_id,
        hop(name, outbound(caller), default_sampled, stamp).context.span_id != 0,
{
    lemma_inject_then_extract(Map::empty(), caller.context, default_sampled);
    assert(extracted(outbound(caller), default_sampled, stamp.trace_id) == caller.context);
}

/// Three hops: for one request that goes from the gateway through the
/// words service to the signing service, the gateway's span, both spans of
/// the words service and the signer's span carry one trace identifier.
/// The spans of the words service have the gateway's span as parent, the
/// signer's span has the span around the signing call as parent, and every
/// span's identifier differs from its parent's.
pub proof fn lemma_one_trace_across_hops(
    headers: Map<Seq<char>, Seq<char>>,
    gateway_default: bool,
    gateway: Stamp,
    words_default: bool,
    generate: Stamp,
    sign: Stamp,
    signer_default: bool,
    signer: Stamp,
)
    ensures
        ({
            let at_gateway = hop(WORDS_SPAN@, headers, gateway_default, gateway);
            let at_words = extracted(outbound(at_gateway), words_default, generate.trace_id);
            let generating = started_span(
                GENERATE_SPAN@,
                at_words,
                generate.span_id,
                generate.millis,
            );
            let requesting = started_span(SIGNATURE_SPAN@, at_words, sign.span_id, sign.millis);
            let signing = hop(SIGN_SPAN@, outbound(requesting), signer_default, signer);
            &&& generating.context.trace_id == at_gateway.context.trace_id
            &&& requesting.context.trace_id == at_gateway.context.trace_id
            &&& signing.context.trace_id == at_gateway.context.trace_id
            &&& at_gateway.context.trace_id != 0
            &&& generating.parent == Some(at_gateway.context)
            &&& requesting.parent == Some(at_gateway.context)
            &&& signing.parent == Some(requesting.context)
            &&& generating.context.span_id != at_gateway.context.span_id
            &&& requesting.context.span_id != at_gateway.context.span_id
            &&& signing.context.span_id != requesting.context.span_id
            &&& signing.context.sampled == at_gateway.context.sampled
        }),
{
    let at_gateway = hop(WORDS_SPAN@, headers, gateway_default, gateway);
    lemma_started_span(WORDS_SPAN@, headers, gateway_default, gateway);
    lemma_next_hop(at_gateway, GENERATE_SPAN@, words_default, generate);
    let at_words = extracted(outbound(at_gateway), words_default, generate.trace_id);
    let requesting = started_span(SIGNATURE_SPAN@, at_words, sign.span_id, sign.millis);
    lemma_next_hop(requesting, SIGN_SPAN@, signer_default, signer);
}

/// Whatever keeps the signing service from answering, the words service
/// answers with the one failure that names no cause; and whatever keeps
/// the words service from answering, that failure included, the gateway
/// answers with nothing.
pub proof fn lemma_failure_is_generic(at_words: DownstreamError, at_gateway: DownstreamError)
    ensures
        settled::<WordsResponse>(Err(at_words)) == Err::<WordsResponse, Failure>(
            Failure::DownstreamCallFailed,
        ),
        answered(Err(at_gateway)) is None,
{
}

/// Handing a span over ends it, and touches no span that was handed over
/// before: where the provider takes spans, the queue grows by this one
/// span, ended at `at`; where it does not, nothing changes.
pub proof fn lemma_finish_ends_once(before: ProviderView, span: SpanView, at: u64)
    requires
        span.is_open(),
    ensures
        ({
            let after = before.after_finish(span, at);
            if before.accepts() {
                &&& after.queued.len() == before.queued.len() + 1
                &&& after.queued.last() == span.ended_at(at)
                &&& after.queued.last().ended == Some(at)
                &&& forall|i: int|
                    0 <= i < before.queued.len() ==> after.queued[i] == before.queued[i]
            } else {
                after == before
            }
        }),
{
}

/// A settled call leaves its span open, whichever way it went, so that the
/// span is ended once, after the call.
pub proof fn lemma_settled_span_is_open(
    span: SpanView,
    outcome: Result<WordsResponse, DownstreamError>,
    at: u64,
)
    requires
        span.is_open(),
    ensures
        settled_span(span, outcome, at).is_open(),
{
}

/// A root context is where a trace starts: a span started under it has no
/// parent.
pub proof fn lemma_root_span(name: Seq<char>, under: SpanContext, candidate: u64, at: u64)
    ensures
        under.is_root() <==> started_span(name, under, candidate, at).parent is None,
        started_span(name, under, candidate, at).context.trace_id == under.trace_id,
{
}

} // verus!
