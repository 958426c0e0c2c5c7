//! The client side of one downstream call: the span context goes out on a
//! fresh carrier, the call is bounded by a fixed deadline, and whatever
//! goes wrong comes back as one and the same failure.

use crate::carrier::Carrier;
use crate::config::ConfigurationError;
use crate::context::SpanContext;
use crate::propagator::{inject, injected};
use crate::provider::TracerProvider;
use crate::span::{Span, SpanView};
use vstd::prelude::*;

verus! {

/// The deadline of a downstream call where none is configured, in
/// milliseconds.
pub const DEFAULT_DEADLINE_MILLIS: u64 = 500;

/// The cause recorded for a call that ran into its deadline.
pub const DEADLINE_EXCEEDED: &'static str = "deadline exceeded";

/// Why a downstream call did not give a response. The detail stays on this
/// side of the boundary: it is recorded on the active span and never
/// handed to the caller's caller.
#[derive(Debug)]
pub enum DownstreamError {
    /// The connection could not be established.
    Unavailable(String),
    /// The deadline passed before a response came.
    Timeout,
    /// The downstream service answered with an error status.
    Remote(String),
}

/// The status code of a call that was cancelled, as it is on the wire. A
/// call that is given up at its deadline on this side ends with it.
pub const STATUS_CANCELLED: i32 = 1;

/// The status code of a call whose deadline passed, as it is on the wire.
pub const STATUS_DEADLINE_EXCEEDED: i32 = 4;

/// The status code of a call that found no service, as it is on the wire.
pub const STATUS_UNAVAILABLE: i32 = 14;

impl DownstreamError {
    /// What a status with an error code stands for: no connection where
    /// the service was unavailable, a timeout where the call was cancelled
    /// or its deadline passed, and an error of the downstream service
    /// otherwise. The message is kept as the detail.
    pub fn from_status(code: i32, message: &str) -> (error: DownstreamError)
        ensures
            match error {
                DownstreamError::Unavailable(detail) => code == STATUS_UNAVAILABLE && detail@
                    == message@,
                DownstreamError::Timeout => code == STATUS_CANCELLED || code
                    == STATUS_DEADLINE_EXCEEDED,
                DownstreamError::Remote(detail) => code != STATUS_UNAVAILABLE && code
                    != STATUS_CANCELLED && code != STATUS_DEADLINE_EXCEEDED && detail@
                    == message@,
            },
    {
        if code == STATUS_UNAVAILABLE {
            DownstreamError::Unavailable(message.to_owned())
        } else if code == STATUS_CANCELLED || code == STATUS_DEADLINE_EXCEEDED {
            DownstreamError::Timeout
        } else {
            DownstreamError::Remote(message.to_owned())
        }
    }

    /// The text recorded on the span as the cause of the failure.
    pub open spec fn cause(self) -> Seq<char> {
        match self {
            DownstreamError::Unavailable(detail) => detail@,
            DownstreamError::Timeout => DEADLINE_EXCEEDED@,
            DownstreamError::Remote(detail) => detail@,
        }
    }

    /// The text recorded on the span as the cause of the failure.
    pub fn cause_text(&self) -> (r: String)
        ensures
            r@ == self.cause(),
    {
        match self {
            DownstreamError::Unavailable(detail) => detail.clone(),
            DownstreamError::Timeout => DEADLINE_EXCEEDED.to_owned(),
            DownstreamError::Remote(detail) => detail.clone(),
        }
    }
}

/// What a caller is told when a request could not be served. It carries no
/// detail: causes are recorded on spans, not handed across a boundary.
#[derive(Clone, Copy, Debug, PartialEq, Eq, Structural)]
pub enum Failure {
    /// A downstream call failed: no connection, no answer within the
    /// deadline, or an error status.
    DownstreamCallFailed,
    /// The words could not be signed.
    SigningFailed,
}

/// The status code that goes with every failure, as it is on the wire:
/// unknown.
pub const STATUS_UNKNOWN: i32 = 2;

/// The status text of `Failure::DownstreamCallFailed`.
pub const DOWNSTREAM_CALL_FAILED: &'static str = "error invoking signing service";

/// The status text of `Failure::SigningFailed`.
pub const SIGNING_FAILED: &'static str = "signing failed";

impl Failure {
    /// The status code that goes with the failure: the same for every
    /// failure.
    pub fn code(&self) -> (c: i32)
        ensures
            c == STATUS_UNKNOWN,
    {
        STATUS_UNKNOWN
    }

    /// The status text that goes with the failure.
    pub fn message(&self) -> (r: &'static str)
        ensures
            r@ == match *self {
                Failure::DownstreamCallFailed => DOWNSTREAM_CALL_FAILED@,
                Failure::SigningFailed => SIGNING_FAILED@,
            },
    {
        match self {
            Failure::DownstreamCallFailed => DOWNSTREAM_CALL_FAILED,
            Failure::SigningFailed => SIGNING_FAILED,
        }
    }
}

/// A downstream call that is ready to be made: the request, the carrier
/// that goes out with it, the time after which the call is given up, and
/// the span that stays open until the call has been settled.
pub struct Pending<Request> {
    pub request: Request,
    pub carrier: Carrier,
    pub deadline_millis: u64,
    pub span: Span,
}

/// What the caller is told once a call has been settled: the response
/// unchanged, or the one failure that stands for every cause.
pub open spec fn settled<Response>(outcome: Result<Response, DownstreamError>) -> Result<
    Response,
    Failure,
> {
    match outcome {
        Ok(response) => Ok(response),
        Err(_) => Err(Failure::DownstreamCallFailed),
    }
}

/// The span of a call once the call has been settled at `at`: as it was
/// after a response, with the cause recorded after an error.
pub open spec fn settled_span<Response>(
    span: SpanView,
    outcome: Result<Response, DownstreamError>,
    at: u64,
) -> SpanView {
    match outcome {
        Ok(_) => span,
        Err(error) => span.with_failure(error.cause(), at),
    }
}

/// The client of one downstream service.
pub struct RpcClient {
    service: String,
    deadline_millis: u64,
}

impl RpcClient {
    /// The address of the downstream service.
    pub closed spec fn service(self) -> Seq<char> {
        self.service@
    }

    /// The time allowed for one call, in milliseconds.
    pub closed spec fn deadline(self) -> u64 {
        self.deadline_millis
    }

    /// A client of the service `service` whose calls are given up after
    /// `deadline_millis` milliseconds.
    pub fn new(service: &str, deadline_millis: u64) -> (client: RpcClient)
        ensures
            client.service() == service@,
            client.deadline() == deadline_millis,
    {
        RpcClient { service: service.to_owned(), deadline_millis }
    }

    /// The address of the downstream service.
    pub fn service_name(&self) -> (r: String)
        ensures
            r@ == self.service(),
    {
        self.service.clone()
    }

    /// The time allowed for one call, in milliseconds.
    pub fn deadline_millis(&self) -> (r: u64)
        ensures
            r == self.deadline(),
    {
        self.deadline_millis
    }

    /// The client of a downstream service that the process cannot do
    /// without. `connected` says whether the connection to `address` could
    /// be established at startup; where it could not, startup has failed.
    pub fn required(address: &str, deadline_millis: u64, connected: bool) -> (r: Result<
        RpcClient,
        ConfigurationError,
    >)
        ensures
            match r {
                Ok(client) => connected && client.service() == address@ && client.deadline()
                    == deadline_millis,
                Err(error) => !connected && (error matches ConfigurationError::DependencyUnavailable(
                    name,
                ) && name@ == address@),
            },
    {
        if connected {
            Ok(RpcClient::new(address, deadline_millis))
        } else {
            Err(ConfigurationError::DependencyUnavailable(address.to_owned()))
        }
    }

    /// Prepares a call made under `span`: a fresh carrier that holds the
    /// span's context and nothing else, and the client's deadline.
    pub fn prepare<Request>(&self, request: Request, span: Span) -> (call: Pending<Request>)
        ensures
            call.request == request,
            call.span == span,
            call.carrier@ == injected(Map::empty(), span@.context),
            call.deadline_millis == self.deadline(),
    {
        let mut carrier = Carrier::new();
        let cx: SpanContext = span.context();
        inject(&cx, &mut carrier);
        Pending { request, carrier, deadline_millis: self.deadline_millis, span }
    }

    /// Settles a call made under `span` with what came back at `at`.
    ///
    /// A response is handed on unchanged, and the span is left as it was.
    /// Any error gives `Failure::DownstreamCallFailed`, and its cause is
    /// recorded on the span as a failure. The span stays open either way.
    pub fn settle<Response>(
        &self,
        outcome: Result<Response, DownstreamError>,
        span: &mut Span,
        at: u64,
    ) -> (r: Result<Response, Failure>)
        requires
            old(span)@.is_open(),
        ensures
            r == settled(outcome),
            final(span)@ == settled_span(old(span)@, outcome, at),
    {
        match outcome {
            Ok(response) => Ok(response),
            Err(error) => {
                let cause = error.cause_text();
                span.record_failure(cause.as_str(), at);
                Err(Failure::DownstreamCallFailed)
            },
        }
    }

    /// Settles a call made under `span` with what came back at `at`, then
    /// ends the span and hands it to `provider`.
    ///
    /// A response is handed on unchanged. Any error gives
    /// `Failure::DownstreamCallFailed`, with its cause recorded on the span.
    /// The span is ended on both paths.
    pub fn complete<Response>(
        &self,
        provider: &mut TracerProvider,
        span: Span,
        outcome: Result<Response, DownstreamError>,
        at: u64,
    ) -> (r: Result<Response, Failure>)
        requires
            span@.is_open(),
        ensures
            r == settled(outcome),
            final(provider)@ == old(provider)@.after_finish(settled_span(span@, outcome, at), at),
    {
        let mut span = span;
        let r = self.settle(outcome, &mut span, at);
        provider.finish(span, at);
        r
    }
}

} // verus!
