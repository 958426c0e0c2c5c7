use pickle::carrier::Carrier;
use pickle::context::SpanContext;
use pickle::messages::{WordsRequest, WordsResponse};
use pickle::propagator::{extract, inject};
use pickle::provider::TracerProvider;
use pickle::rpc::{DownstreamError, Failure, RpcClient};
use pickle::stamp::Stamp;
use pickle::words::{MyPickWords, WordsStep};

fn service() -> MyPickWords {
    MyPickWords::new(RpcClient::new("http://signing-svc:9090", 500))
}

fn inbound() -> (Carrier, SpanContext) {
    let cx = SpanContext { trace_id: 0xabcdef, span_id: 0x11, sampled: true };
    let mut carrier = Carrier::new();
    inject(&cx, &mut carrier);
    (carrier, cx)
}

fn three() -> Vec<String> {
    vec![String::from("happy"), String::from("hungry"), String::from("hare")]
}

#[test]
fn an_unsigned_request_is_answered_at_once() {
    let mut provider = TracerProvider::init("words-svc", true);
    let (carrier, cx) = inbound();
    let step = service().get_words_from(
        &mut provider,
        WordsRequest { count: 3, signed: false },
        &carrier,
        three(),
        &Stamp::new(100, 1, 0x22),
        105,
        &Stamp::new(106, 2, 0x33),
    );
    match step {
        WordsStep::Reply(response) => {
            assert_eq!(response.words, three());
            assert_eq!(response.timestamp, None);
            assert_eq!(response.signature, None);
        }
        WordsStep::CallSigner(_) => panic!("signature requested for an unsigned request"),
    }
    let spans = provider.take_queued();
    assert_eq!(spans.len(), 1);
    assert_eq!(spans[0].name(), "generating words");
    assert_eq!(spans[0].context(), SpanContext { trace_id: 0xabcdef, span_id: 0x22, sampled: true });
    assert_eq!(spans[0].parent(), Some(cx));
    assert_eq!(spans[0].started(), 100);
    assert_eq!(spans[0].ended(), Some(105));
}

#[test]
fn a_signed_request_leads_to_a_call_of_the_signer() {
    let mut provider = TracerProvider::init("words-svc", true);
    let (carrier, cx) = inbound();
    let step = service().get_words_from(
        &mut provider,
        WordsRequest { count: 3, signed: true },
        &carrier,
        three(),
        &Stamp::new(100, 1, 0x22),
        105,
        &Stamp::new(106, 2, 0x33),
    );
    let call = match step {
        WordsStep::CallSigner(call) => call,
        WordsStep::Reply(_) => panic!("a signed request was answered unsigned"),
    };
    assert_eq!(call.request.words, three());
    assert_eq!(call.deadline_millis, 500);
    assert_eq!(call.span.name(), "requesting signature");
    assert_eq!(call.span.context(), SpanContext { trace_id: 0xabcdef, span_id: 0x33, sampled: true });
    assert_eq!(call.span.parent(), Some(cx));
    assert_eq!(call.span.started(), 106);
    assert!(!call.span.is_ended());
    assert_eq!(extract(&call.carrier, false, 9), call.span.context());
    assert_eq!(call.carrier.pairs().len(), 3);
    let spans = provider.take_queued();
    assert_eq!(spans.len(), 1);
    assert_eq!(spans[0].name(), "generating words");
    assert_eq!(spans[0].ended(), Some(105));
}

#[test]
fn without_inbound_context_both_spans_start_one_new_trace() {
    let mut provider = TracerProvider::init("words-svc", true);
    let step = service().get_words_from(
        &mut provider,
        WordsRequest { count: 0, signed: true },
        &Carrier::new(),
        Vec::new(),
        &Stamp::new(100, 0x777, 0x22),
        105,
        &Stamp::new(106, 0x888, 0x33),
    );
    let call = match step {
        WordsStep::CallSigner(call) => call,
        WordsStep::Reply(_) => panic!("a signed request was answered unsigned"),
    };
    let spans = provider.take_queued();
    assert_eq!(spans[0].context(), SpanContext { trace_id: 0x777, span_id: 0x22, sampled: true });
    assert_eq!(spans[0].parent(), None);
    assert_eq!(call.span.context(), SpanContext { trace_id: 0x777, span_id: 0x33, sampled: true });
    assert_eq!(call.span.parent(), None);
    assert_eq!(call.request.words.len(), 0);
}

#[test]
fn the_signers_answer_is_handed_on_verbatim() {
    let mut provider = TracerProvider::init("words-svc", true);
    let (carrier, _) = inbound();
    let svc = service();
    let call = match svc.get_words_from(
        &mut provider,
        WordsRequest { count: 3, signed: true },
        &carrier,
        three(),
        &Stamp::new(100, 1, 0x22),
        105,
        &Stamp::new(106, 2, 0x33),
    ) {
        WordsStep::CallSigner(call) => call,
        WordsStep::Reply(_) => panic!("a signed request was answered unsigned"),
    };
    let answer = WordsResponse::signed(three(), 1_635_000_000_000, String::from("c2lnbmF0dXJl"));
    let r = svc.signed(&mut provider, call.span, Ok(answer), 150).unwrap();
    assert_eq!(r.words, three());
    assert_eq!(r.timestamp, Some(1_635_000_000_000));
    assert_eq!(r.signature, Some(String::from("c2lnbmF0dXJl")));
    let spans = provider.take_queued();
    assert_eq!(spans.len(), 2);
    assert_eq!(spans[1].name(), "requesting signature");
    assert_eq!(spans[1].ended(), Some(150));
    assert_eq!(spans[1].failure(), None);
    assert!(spans.iter().all(|s| s.is_ended()));
}

#[test]
fn an_unreachable_signer_gives_the_generic_failure() {
    let svc = service();
    let errors = vec![
        DownstreamError::Unavailable(String::from("dns error: signing-svc")),
        DownstreamError::Timeout,
        DownstreamError::Remote(String::from("Unknown: key rejected")),
    ];
    for error in errors {
        let mut provider = TracerProvider::init("words-svc", true);
        let (carrier, _) = inbound();
        let call = match svc.get_words_from(
            &mut provider,
            WordsRequest { count: 3, signed: true },
            &carrier,
            three(),
            &Stamp::new(100, 1, 0x22),
            105,
            &Stamp::new(106, 2, 0x33),
        ) {
            WordsStep::CallSigner(call) => call,
            WordsStep::Reply(_) => panic!("a signed request was answered unsigned"),
        };
        let cause = error.cause_text();
        let r = svc.signed(&mut provider, call.span, Err(error), 150);
        match r {
            Err(failure) => {
                assert_eq!(failure, Failure::DownstreamCallFailed);
                assert_eq!(failure.message(), "error invoking signing service");
                assert_eq!(failure.code(), 2);
            }
            Ok(_) => panic!("a failed call gave an answer"),
        }
        let spans = provider.take_queued();
        assert_eq!(spans.len(), 2);
        assert_eq!(spans[1].ended(), Some(150));
        assert_eq!(spans[1].failure(), Some(cause));
        assert_eq!(spans[1].events()[0].name, "exception");
    }
}

#[test]
fn words_are_generated_for_a_request() {
    let mut provider = TracerProvider::init("words-svc", true);
    let (carrier, cx) = inbound();
    match service().get_words(&mut provider, WordsRequest { count: 3, signed: false }, &carrier) {
        WordsStep::Reply(response) => {
            assert_eq!(response.words.len(), 3);
            assert!(response.words.iter().all(|w| !w.is_empty()));
            assert_eq!(response.timestamp, None);
            assert_eq!(response.signature, None);
        }
        WordsStep::CallSigner(_) => panic!("signature requested for an unsigned request"),
    }
    let spans = provider.take_queued();
    assert_eq!(spans.len(), 1);
    assert_eq!(spans[0].context().trace_id, cx.trace_id);
    assert_eq!(spans[0].parent(), Some(cx));
    assert!(spans[0].is_ended());
    assert!(spans[0].ended().unwrap() >= spans[0].started());
}

#[test]
fn words_are_generated_before_the_signer_is_called() {
    let mut provider = TracerProvider::init("words-svc", false);
    let (carrier, cx) = inbound();
    match service().get_words(&mut provider, WordsRequest { count: 5, signed: true }, &carrier) {
        WordsStep::CallSigner(call) => {
            assert_eq!(call.request.words.len(), 5);
            assert!(call.request.words.iter().all(|w| !w.is_empty()));
            assert_eq!(call.span.parent(), Some(cx));
            assert_eq!(extract(&call.carrier, false, 9), call.span.context());
            assert_ne!(call.span.context().span_id, cx.span_id);
            assert_ne!(call.span.context().span_id, 0);
        }
        WordsStep::Reply(_) => panic!("a signed request was answered unsigned"),
    }
    assert_eq!(provider.queued_len(), 0);
}

#[test]
fn generated_words_hold_no_hyphen() {
    let words = pickle::generate::generate_words(200);
    assert_eq!(words.len(), 200);
    assert!(words.iter().all(|w| !w.is_empty() && !w.contains('-')));
    assert!(words.iter().all(|w| w.chars().all(|c| c.is_ascii_lowercase())));
}
