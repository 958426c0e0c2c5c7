//! The gateway: takes requests from outside, forwards them to the words
//! service or the signing service, and answers with what they return.

use crate::carrier::Carrier;
use crate::config::{configured, first_missing, Config, ConfigurationError};
use crate::messages::{SignRequest, Words, WordsRequest, WordsResponse, WordsView};
use crate::propagator::{extract, extracted, injected};
use crate::provider::{ProviderView, TracerProvider};
use crate::rpc::{
    settled_span, DownstreamError, Pending, RpcClient, DEFAULT_DEADLINE_MILLIS,
};
use crate::span::{started_span, Span};
use crate::stamp::Stamp;
use crate::text::texts;
use vstd::prelude::*;

verus! {

/// What the root answers with.
pub const ROOT: &'static str = "root";

/// The landing page: links to the two descriptions of the interface.
pub const LANDING_PAGE: &'static str =
    "<html>\n        <body>\n            <a href=\"swagger/index.html\">Swagger docs</a><br/>\n            <a href=\"api/v1.0/openapi.json\">OpenAPI docs</a>\n        </body>\n    <html>";

/// The name of the current version of the interface.
pub const VERSION: &'static str = "v1.0";

/// What the interface calls its caller.
pub const MYSELF: &'static str = "myself";

/// The name under which the gateway's spans are made.
pub const TRACER: &'static str = "pickle web";

/// The name of the span around a request for words.
pub const WORDS_SPAN: &'static str = "words";

/// The name of the span around a request for a signature.
pub const SIGN_WORDS_SPAN: &'static str = "sign_words";

/// The number of words asked for where the caller names none.
pub const DEFAULT_COUNT: u8 = 3;

/// What the root answers with.
pub fn index() -> (name: &'static str)
    ensures
        name@ == "root"@,
{
    ROOT
}

/// The landing page of the web interface.
pub fn landing_page() -> (page: &'static str)
    ensures
        page@ == LANDING_PAGE@,
{
    LANDING_PAGE
}

/// The name of the current version of the interface.
pub fn v1_0() -> (name: &'static str)
    ensures
        name@ == VERSION@,
{
    VERSION
}

/// What the interface calls its caller.
pub fn me() -> (name: &'static str)
    ensures
        name@ == MYSELF@,
{
    MYSELF
}

/// A gateway that is ready to serve.
pub struct Gateway {
    pub config: Config,
    pub provider: TracerProvider,
    pub sign: RpcClient,
    pub words: RpcClient,
}

/// Why the gateway does not start, if it does not: the first required
/// setting that is missing, else the first required service that could not
/// be reached, the signing service before the words service.
pub open spec fn launch_error(
    settings: Map<Seq<char>, Seq<char>>,
    sign_connected: bool,
    words_connected: bool,
) -> Option<Seq<char>> {
    if first_missing(settings) is Some {
        first_missing(settings)
    } else if !sign_connected {
        Some(configured(settings).sign_svc_addr)
    } else if !words_connected {
        Some(configured(settings).words_svc_addr)
    } else {
        None
    }
}

/// Decides the gateway's startup from what was found at startup: the
/// settings, whether the exporter pipeline could be built, and whether the
/// connections to the two downstream services could be established.
///
/// A missing setting and an unreachable downstream service end startup; a
/// pipeline that could not be built does not: the gateway then serves with
/// a tracer provider that drops its spans. Calls to either service are
/// given up after `DEFAULT_DEADLINE_MILLIS`.
pub fn rocket(
    settings: &Carrier,
    pipeline_built: bool,
    sign_connected: bool,
    words_connected: bool,
) -> (r: Result<Gateway, ConfigurationError>)
    ensures
        match r {
            Ok(gateway) => {
                &&& launch_error(settings@, sign_connected, words_connected) is None
                &&& gateway.config@ == configured(settings@)
                &&& gateway.provider@ == (ProviderView {
                    service_name: configured(settings@).tracing_service_name,
                    exporting: pipeline_built,
                    shut_down: false,
                    queued: Seq::empty(),
                })
                &&& gateway.sign.service() == configured(settings@).sign_svc_addr
                &&& gateway.sign.deadline() == DEFAULT_DEADLINE_MILLIS
                &&& gateway.words.service() == configured(settings@).words_svc_addr
                &&& gateway.words.deadline() == DEFAULT_DEADLINE_MILLIS
            },
            Err(ConfigurationError::MissingSetting(name)) => first_missing(settings@) == Some(
                name@,
            ),
            Err(ConfigurationError::DependencyUnavailable(address)) => first_missing(settings@)
                is None && launch_error(settings@, sign_connected, words_connected) == Some(
                address@,
            ),
            Err(ConfigurationError::KeyRejected) => false,
        },
{
    let config = match Config::read(settings) {
        Ok(config) => config,
        Err(error) => {
            return Err(error);
        },
    };
    let provider = TracerProvider::init(config.tracing_service_name.as_str(), pipeline_built);
    let sign = match RpcClient::required(
        config.sign_svc_addr.as_str(),
        DEFAULT_DEADLINE_MILLIS,
        sign_connected,
    ) {
        Ok(client) => client,
        Err(error) => {
            return Err(error);
        },
    };
    let words = match RpcClient::required(
        config.words_svc_addr.as_str(),
        DEFAULT_DEADLINE_MILLIS,
        words_connected,
    ) {
        Ok(client) => client,
        Err(error) => {
            return Err(error);
        },
    };
    Ok(Gateway { config, provider, sign, words })
}

/// The number of words that a request asks for.
pub open spec fn requested_count(count: Option<u8>) -> u32 {
    match count {
        Some(count) => count as u32,
        None => DEFAULT_COUNT as u32,
    }
}

/// The first half of a request for words: reads the context from the
/// request's headers, starts the request's span under it and prepares the
/// call to the words service, for `count` words or `DEFAULT_COUNT`.
///
/// The span is still open, its context is all that the outgoing carrier
/// holds, and the call is given up after the client's deadline.
pub fn words(
    provider: &TracerProvider,
    client: &RpcClient,
    headers: &Carrier,
    count: Option<u8>,
    signed: bool,
    stamp: &Stamp,
) -> (call: Pending<WordsRequest>)
    ensures
        call.request == (WordsRequest { count: requested_count(count), signed }),
        call.span@ == started_span(
            WORDS_SPAN@,
            extracted(headers@, provider@.accepts(), stamp.trace_id),
            stamp.span_id,
            stamp.millis,
        ),
        call.carrier@ == injected(Map::empty(), call.span@.context),
        call.deadline_millis == client.deadline(),
{
    let cx = extract(headers, provider.default_sampled(), stamp.trace_id);
    let span = Span::start(WORDS_SPAN, &cx, stamp.span_id, stamp.millis);
    let cnt: u8 = match count {
        Some(cnt) => cnt,
        None => DEFAULT_COUNT,
    };
    client.prepare(WordsRequest { count: cnt as u32, signed }, span)
}

/// A copy of `words`.
fn copy_words(words: &Vec<String>) -> (copy: Vec<String>)
    ensures
        texts(copy@) == texts(words@),
{
    let mut copy: Vec<String> = Vec::new();
    let mut i: usize = 0;
    while i < words.len()
        invariant
            i <= words.len(),
            copy@.len() == i,
            forall|j: int| 0 <= j < i ==> (#[trigger] copy@[j])@ == words@[j]@,
        decreases words.len() - i,
    {
        copy.push(words[i].clone());
        i += 1;
    }
    assert(texts(copy@) =~= texts(words@));
    copy
}

/// The first half of a request for a signature: reads the context from
/// the request's headers, starts the request's span under it and prepares
/// the call that has the submitted words signed.
///
/// The span is still open, its context is all that the outgoing carrier
/// holds, and the call is given up after the client's deadline. Timestamp
/// and signature of the submission are not looked at.
pub fn sign_words(
    provider: &TracerProvider,
    client: &RpcClient,
    headers: &Carrier,
    words: &Words,
    stamp: &Stamp,
) -> (call: Pending<SignRequest>)
    ensures
        texts(call.request.words@) == words@.words,
        call.span@ == started_span(
            SIGN_WORDS_SPAN@,
            extracted(headers@, provider@.accepts(), stamp.trace_id),
            stamp.span_id,
            stamp.millis,
        ),
        call.carrier@ == injected(Map::empty(), call.span@.context),
        call.deadline_millis == client.deadline(),
{
    let cx = extract(headers, provider.default_sampled(), stamp.trace_id);
    let span = Span::start(SIGN_WORDS_SPAN, &cx, stamp.span_id, stamp.millis);
    client.prepare(SignRequest { words: copy_words(&words.words) }, span)
}

/// What the gateway answers once the downstream call has been settled:
/// the response's words, timestamp and signature, or nothing.
pub open spec fn answered(outcome: Result<WordsResponse, DownstreamError>) -> Option<WordsView> {
    match outcome {
        Ok(response) => Some(response@),
        Err(_) => None,
    }
}

/// An optional answer as contracts see it.
pub open spec fn words_view(answer: Option<Words>) -> Option<WordsView> {
    match answer {
        Some(words) => Some(words@),
        None => None,
    }
}

/// The second half of either request: settles the downstream call with
/// what came back at `at`.
///
/// A response is answered as it is. Any error is answered with nothing,
/// and its cause is recorded on the span. The span is ended and handed
/// over on both paths.
pub fn respond(
    provider: &mut TracerProvider,
    client: &RpcClient,
    span: Span,
    outcome: Result<WordsResponse, DownstreamError>,
    at: u64,
) -> (answer: Option<Words>)
    requires
        span@.is_open(),
    ensures
        words_view(answer) == answered(outcome),
        final(provider)@ == old(provider)@.after_finish(settled_span(span@, outcome, at), at),
{
    match client.complete(provider, span, outcome, at) {
        Ok(response) => Some(Words::from(response)),
        Err(_) => None,
    }
}

} // verus!
