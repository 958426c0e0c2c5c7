//! The words service: generates a list of words and, where a signature is
//! asked for, has the signing service sign it.

use crate::carrier::Carrier;
use crate::generate::{generate_words, names_needed, picked_words};
use crate::messages::{SignRequest, WordsRequest, WordsResponse, WordsView};
use crate::propagator::{extract, extracted, injected};
use crate::provider::{ProviderView, TracerProvider};
use crate::rpc::{settled, settled_span, DownstreamError, Failure, Pending, RpcClient};
use crate::span::{started_span, Span};
use crate::stamp::{now_millis, Stamp};
use crate::text::{texts, well_segmented};
use vstd::prelude::*;

verus! {

/// The name under which the words service's spans are made.
pub const TRACER: &'static str = "words";

/// The name of the span around word generation.
pub const GENERATE_SPAN: &'static str = "generating words";

/// The name of the span around the call to the signing service.
pub const SIGNATURE_SPAN: &'static str = "requesting signature";

/// What the words service does next with a request.
pub enum WordsStep {
    /// Answer with these words, unsigned.
    Reply(WordsResponse),
    /// Call the signing service, then go on with `MyPickWords::signed`.
    CallSigner(Pending<SignRequest>),
}

/// What the first half of a request comes to.
///
/// `before` and `after` are the tracer provider around it, `words` the
/// generated words, `generate` and `sign` what was drawn for the two spans
/// and `generated` the time at which the words were there.
///
/// The span around generation is started under the context read from
/// `metadata`, and is ended and handed over before anything else. An
/// unsigned request is answered with the words, without timestamp or
/// signature. A signed request leads to a call of the signing service under
/// a second span, started under the same context and still open, whose own
/// context is all that the outgoing carrier holds; the call is given up
/// after `deadline` milliseconds.
pub open spec fn words_outcome(
    deadline: u64,
    before: ProviderView,
    request: WordsRequest,
    metadata: Map<Seq<char>, Seq<char>>,
    words: Seq<Seq<char>>,
    generate: Stamp,
    generated: u64,
    sign: Stamp,
    step: WordsStep,
    after: ProviderView,
) -> bool {
    let under = extracted(metadata, before.accepts(), generate.trace_id);
    let first = started_span(GENERATE_SPAN@, under, generate.span_id, generate.millis);
    &&& after == before.after_finish(first, generated)
    &&& match step {
        WordsStep::Reply(response) => {
            &&& !request.signed
            &&& response@ == (WordsView { words, timestamp: None, signature: None })
        },
        WordsStep::CallSigner(call) => {
            &&& request.signed
            &&& texts(call.request.words@) == words
            &&& call.span@ == started_span(SIGNATURE_SPAN@, under, sign.span_id, sign.millis)
            &&& call.carrier@ == injected(Map::empty(), call.span@.context)
            &&& call.deadline_millis == deadline
        },
    }
}

/// The words service.
pub struct MyPickWords {
    signer: RpcClient,
}

impl MyPickWords {
    /// The client of the signing service.
    pub closed spec fn signing_client(self) -> RpcClient {
        self.signer
    }

    /// A words service that has its lists signed through `signer`.
    pub fn new(signer: RpcClient) -> (service: MyPickWords)
        ensures
            service.signing_client() == signer,
    {
        MyPickWords { signer }
    }

    /// The client of the signing service.
    pub fn signer(&self) -> (client: &RpcClient)
        ensures
            *client == self.signing_client(),
    {
        &self.signer
    }

    /// Answers with `words`, or prepares the call that has them signed.
    fn answer(
        &self,
        signed: bool,
        under: &crate::context::SpanContext,
        words: Vec<String>,
        sign: &Stamp,
    ) -> (step: WordsStep)
        ensures
            match step {
                WordsStep::Reply(response) => {
                    &&& !signed
                    &&& response@ == (WordsView {
                        words: texts(words@),
                        timestamp: None,
                        signature: None,
                    })
                },
                WordsStep::CallSigner(call) => {
                    &&& signed
                    &&& call.request.words == words
                    &&& call.span@ == started_span(
                        SIGNATURE_SPAN@,
                        *under,
                        sign.span_id,
                        sign.millis,
                    )
                    &&& call.carrier@ == injected(Map::empty(), call.span@.context)
                    &&& call.deadline_millis == self.signing_client().deadline()
                },
            },
    {
        if signed {
            let span = Span::start(SIGNATURE_SPAN, under, sign.span_id, sign.millis);
            WordsStep::CallSigner(self.signer.prepare(SignRequest { words }, span))
        } else {
            WordsStep::Reply(WordsResponse::unsigned(words))
        }
    }

    /// The first half of a request, for words that are there already and
    /// with the values drawn for it: see `words_outcome`.
    pub fn get_words_from(
        &self,
        provider: &mut TracerProvider,
        request: WordsRequest,
        metadata: &Carrier,
        words: Vec<String>,
        generate: &Stamp,
        generated: u64,
        sign: &Stamp,
    ) -> (step: WordsStep)
        ensures
            words_outcome(
                self.signing_client().deadline(),
                old(provider)@,
                request,
                metadata@,
                texts(words@),
                *generate,
                generated,
                *sign,
                step,
                final(provider)@,
            ),
    {
        let cx = extract(metadata, provider.default_sampled(), generate.trace_id);
        let span = Span::start(GENERATE_SPAN, &cx, generate.span_id, generate.millis);
        provider.finish(span, generated);
        self.answer(request.signed, &cx, words, sign)
    }

    /// The first half of a request: reads the context from `metadata`,
    /// generates `request.count` words under a span of their own, and
    /// answers with them or prepares the call that has them signed.
    ///
    /// The outcome is the one that `words_outcome` describes for a list of
    /// exactly `request.count` non-empty words, picked from random names,
    /// and for the values that were drawn while the request was served.
    pub fn get_words(
        &self,
        provider: &mut TracerProvider,
        request: WordsRequest,
        metadata: &Carrier,
    ) -> (step: WordsStep)
        ensures
            exists|names: Seq<Seq<char>>, generate: Stamp, generated: u64, sign: Stamp|
                {
                    &&& names.len() == names_needed(request.count)
                    &&& forall|i: int|
                        0 <= i < names.len() ==> well_segmented(#[trigger] names[i])
                    &&& #[trigger] words_outcome(
                        self.signing_client().deadline(),
                        old(provider)@,
                        request,
                        metadata@,
                        picked_words(request.count, names),
                        generate,
                        generated,
                        sign,
                        step,
                        final(provider)@,
                    )
                },
    {
        let generate = Stamp::draw();
        let cx = extract(metadata, provider.default_sampled(), generate.trace_id);
        let span = Span::start(GENERATE_SPAN, &cx, generate.span_id, generate.millis);
        let words = generate_words(request.count);
        let ghost names = choose|names: Seq<Seq<char>>|
            {
                &&& names.len() == names_needed(request.count)
                &&& forall|i: int| 0 <= i < names.len() ==> well_segmented(#[trigger] names[i])
                &&& texts(words@) == #[trigger] picked_words(request.count, names)
            };
        let generated = now_millis().unwrap_or(generate.millis);
        provider.finish(span, generated);
        let sign = Stamp::draw();
        let ghost list = texts(words@);
        let step = self.answer(request.signed, &cx, words, &sign);
        assert(list == picked_words(request.count, names));
        assert(words_outcome(
            self.signing_client().deadline(),
            old(provider)@,
            request,
            metadata@,
            picked_words(request.count, names),
            generate,
            generated,
            sign,
            step,
            final(provider)@,
        ));
        step
    }

    /// The second half of a signed request: settles the call to the signing
    /// service with what came back at `at`.
    ///
    /// The signing service's answer is handed on unchanged. Any error gives
    /// `Failure::DownstreamCallFailed`, with its cause recorded on the
    /// span. The span is ended and handed over on both paths.
    pub fn signed(
        &self,
        provider: &mut TracerProvider,
        span: Span,
        outcome: Result<WordsResponse, DownstreamError>,
        at: u64,
    ) -> (r: Result<WordsResponse, Failure>)
        requires
            span@.is_open(),
        ensures
            r == settled(outcome),
            final(provider)@ == old(provider)@.after_finish(settled_span(span@, outcome, at), at),
    {
        self.signer.complete(provider, span, outcome, at)
    }
}

} // verus!
