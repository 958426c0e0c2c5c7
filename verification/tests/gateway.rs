use pickle::carrier::Carrier;
use pickle::config::{Config, ConfigurationError};
use pickle::context::SpanContext;
use pickle::gateway::{
    index, landing_page, me, respond, rocket, sign_words, v1_0, words, DEFAULT_COUNT,
};
use pickle::messages::{Words, WordsRequest, WordsResponse};
use pickle::propagator::{extract, inject};
use pickle::provider::TracerProvider;
use pickle::rpc::{DownstreamError, RpcClient};
use pickle::stamp::Stamp;

fn settings() -> Carrier {
    let mut s = Carrier::new();
    s.set("words-svc-addr", "http://words-svc:9090");
    s.set("sign-svc-addr", "http://signing-svc:9090");
    s.set("tracing-service-name", "pickle");
    s.set("trace-collector-endpoint", "http://collector:14268/api/traces");
    s
}

fn without(key: &str) -> Carrier {
    let mut s = Carrier::new();
    for (k, v) in settings().pairs() {
        if k != key {
            s.set(&k, &v);
        }
    }
    s
}

#[test]
fn static_routes() {
    assert_eq!(index(), "root");
    assert_eq!(
        landing_page(),
        "<html>\n        <body>\n            <a href=\"swagger/index.html\">Swagger docs</a><br/>\n            <a href=\"api/v1.0/openapi.json\">OpenAPI docs</a>\n        </body>\n    <html>"
    );
    assert_eq!(v1_0(), "v1.0");
    assert_eq!(me(), "myself");
}

#[test]
fn the_configuration_is_read_from_the_settings() {
    let config = Config::read(&settings()).unwrap();
    assert_eq!(config.words_svc_addr, "http://words-svc:9090");
    assert_eq!(config.sign_svc_addr, "http://signing-svc:9090");
    assert_eq!(config.tracing_service_name, "pickle");
    assert_eq!(config.trace_collector_endpoint, "http://collector:14268/api/traces");
}

fn missing(r: Result<Config, ConfigurationError>) -> String {
    match r {
        Err(ConfigurationError::MissingSetting(name)) => name,
        _ => panic!("a missing setting went unnoticed"),
    }
}

#[test]
fn a_missing_setting_is_named() {
    assert_eq!(missing(Config::read(&without("words-svc-addr"))), "words-svc-addr");
    assert_eq!(missing(Config::read(&without("sign-svc-addr"))), "sign-svc-addr");
    assert_eq!(missing(Config::read(&without("tracing-service-name"))), "tracing-service-name");
    assert_eq!(
        missing(Config::read(&without("trace-collector-endpoint"))),
        "trace-collector-endpoint"
    );
    assert_eq!(missing(Config::read(&Carrier::new())), "words-svc-addr");
    let mut two = without("sign-svc-addr");
    two = {
        let mut s = Carrier::new();
        for (k, v) in two.pairs() {
            if k != "trace-collector-endpoint" {
                s.set(&k, &v);
            }
        }
        s
    };
    assert_eq!(missing(Config::read(&two)), "sign-svc-addr");
}

#[test]
fn the_gateway_starts_with_settings_and_connections() {
    let gateway = rocket(&settings(), true, true, true).unwrap();
    assert_eq!(gateway.config.words_svc_addr, "http://words-svc:9090");
    assert!(gateway.provider.is_exporting());
    assert!(!gateway.provider.is_shut_down());
    assert_eq!(gateway.provider.queued_len(), 0);
    assert_eq!(gateway.provider.service_name(), "pickle");
    assert_eq!(gateway.sign.service_name(), "http://signing-svc:9090");
    assert_eq!(gateway.sign.deadline_millis(), 500);
    assert_eq!(gateway.words.service_name(), "http://words-svc:9090");
    assert_eq!(gateway.words.deadline_millis(), 500);
}

#[test]
fn the_gateway_starts_without_a_tracing_backend() {
    let gateway = rocket(&settings(), false, true, true).unwrap();
    assert!(!gateway.provider.is_exporting());
    assert!(!gateway.provider.default_sampled());
}

#[test]
fn the_gateway_does_not_start_without_a_setting() {
    match rocket(&without("tracing-service-name"), true, true, true) {
        Err(ConfigurationError::MissingSetting(name)) => assert_eq!(name, "tracing-service-name"),
        _ => panic!("the gateway started without a required setting"),
    }
    match rocket(&without("sign-svc-addr"), true, false, false) {
        Err(ConfigurationError::MissingSetting(name)) => assert_eq!(name, "sign-svc-addr"),
        _ => panic!("the gateway started without a required setting"),
    }
}

#[test]
fn the_gateway_does_not_start_without_its_dependencies() {
    match rocket(&settings(), true, false, true) {
        Err(ConfigurationError::DependencyUnavailable(a)) => assert_eq!(a, "http://signing-svc:9090"),
        _ => panic!("the gateway started without the signing service"),
    }
    match rocket(&settings(), true, true, false) {
        Err(ConfigurationError::DependencyUnavailable(a)) => assert_eq!(a, "http://words-svc:9090"),
        _ => panic!("the gateway started without the words service"),
    }
    match rocket(&settings(), false, false, false) {
        Err(ConfigurationError::DependencyUnavailable(a)) => assert_eq!(a, "http://signing-svc:9090"),
        _ => panic!("the gateway started without its services"),
    }
}

fn fixtures() -> (TracerProvider, RpcClient) {
    (TracerProvider::init("pickle", true), RpcClient::new("http://words-svc:9090", 500))
}

#[test]
fn a_request_for_words_asks_for_three_by_default() {
    let (provider, client) = fixtures();
    let call = words(&provider, &client, &Carrier::new(), None, false, &Stamp::new(10, 0x42, 0x7));
    assert_eq!(DEFAULT_COUNT, 3);
    assert_eq!(call.request, WordsRequest { count: 3, signed: false });
    assert_eq!(call.deadline_millis, 500);
    assert_eq!(call.span.name(), "words");
    assert_eq!(call.span.context(), SpanContext { trace_id: 0x42, span_id: 0x7, sampled: true });
    assert_eq!(call.span.parent(), None);
    assert_eq!(call.span.started(), 10);
    assert!(!call.span.is_ended());
    assert_eq!(extract(&call.carrier, false, 1), call.span.context());
    assert_eq!(
        call.carrier.get("X-B3-TraceId"),
        Some(String::from("00000000000000000000000000000042"))
    );
}

#[test]
fn a_request_for_words_passes_count_and_flag_on() {
    let (provider, client) = fixtures();
    let call = words(&provider, &client, &Carrier::new(), Some(0), true, &Stamp::new(10, 1, 2));
    assert_eq!(call.request, WordsRequest { count: 0, signed: true });
    let call = words(&provider, &client, &Carrier::new(), Some(255), false, &Stamp::new(10, 1, 2));
    assert_eq!(call.request, WordsRequest { count: 255, signed: false });
}

#[test]
fn a_request_continues_the_callers_trace() {
    let (provider, client) = fixtures();
    let caller = SpanContext { trace_id: 0xc0ffee, span_id: 0x5, sampled: false };
    let mut headers = Carrier::new();
    inject(&caller, &mut headers);
    let call = words(&provider, &client, &headers, Some(2), false, &Stamp::new(10, 0x42, 0x5));
    assert_eq!(call.span.context(), SpanContext { trace_id: 0xc0ffee, span_id: 1, sampled: false });
    assert_eq!(call.span.parent(), Some(caller));
    assert_eq!(call.carrier.get("x-b3-sampled"), Some(String::from("0")));
}

#[test]
fn a_request_for_a_signature_submits_the_words() {
    let (provider, client) = fixtures();
    let submitted = Words {
        words: vec![String::from("happy"), String::from("hare")],
        timestamp: Some(5),
        signature: Some(String::from("old")),
    };
    let call = sign_words(&provider, &client, &Carrier::new(), &submitted, &Stamp::new(10, 0x42, 0x7));
    assert_eq!(call.request.words, vec![String::from("happy"), String::from("hare")]);
    assert_eq!(call.span.name(), "sign_words");
    assert_eq!(call.span.context(), SpanContext { trace_id: 0x42, span_id: 0x7, sampled: true });
    assert_eq!(extract(&call.carrier, false, 1), call.span.context());
}

#[test]
fn the_gateway_answers_with_the_response() {
    let (mut provider, client) = fixtures();
    let call = words(&provider, &client, &Carrier::new(), None, true, &Stamp::new(10, 0x42, 0x7));
    let response = WordsResponse::signed(vec![String::from("hare")], 77, String::from("c2ln"));
    let answer = respond(&mut provider, &client, call.span, Ok(response), 30).unwrap();
    assert_eq!(answer.words, vec![String::from("hare")]);
    assert_eq!(answer.timestamp, Some(77));
    assert_eq!(answer.signature, Some(String::from("c2ln")));
    let spans = provider.take_queued();
    assert_eq!(spans.len(), 1);
    assert_eq!(spans[0].name(), "words");
    assert_eq!(spans[0].ended(), Some(30));
    assert_eq!(spans[0].failure(), None);
}

#[test]
fn the_gateway_answers_a_failed_call_with_nothing() {
    let errors = vec![
        DownstreamError::Unavailable(String::from("connection refused")),
        DownstreamError::Timeout,
        DownstreamError::Remote(String::from("error invoking signing service")),
    ];
    for error in errors {
        let (mut provider, client) = fixtures();
        let call = words(&provider, &client, &Carrier::new(), None, true, &Stamp::new(10, 0x42, 0x7));
        let cause = error.cause_text();
        assert!(respond(&mut provider, &client, call.span, Err(error), 30).is_none());
        let spans = provider.take_queued();
        assert_eq!(spans.len(), 1);
        assert_eq!(spans[0].ended(), Some(30));
        assert_eq!(spans[0].failure(), Some(cause));
    }
}

#[test]
fn answers_compare_by_words_timestamp_and_signature() {
    let answer = |words: &[&str], timestamp: Option<u64>, signature: Option<&str>| Words {
        words: words.iter().map(|w| w.to_string()).collect(),
        timestamp,
        signature: signature.map(|s| s.to_string()),
    };
    assert!(answer(&["a", "b"], None, None) == answer(&["a", "b"], None, None));
    assert!(answer(&["a", "b"], Some(1), Some("s")) == answer(&["a", "b"], Some(1), Some("s")));
    assert!(answer(&[], None, None) == answer(&[], None, None));
    assert!(answer(&[], Some(1), Some("x")) != answer(&[], None, None));
    assert!(answer(&["a", "b"], None, None) != answer(&["a", "b"], Some(1), Some("s")));
    assert!(answer(&["a"], Some(1), Some("s")) != answer(&["a"], Some(2), Some("s")));
    assert!(answer(&["a"], Some(1), Some("s")) != answer(&["a"], Some(1), Some("t")));
    assert!(answer(&["a"], Some(1), Some("s")) != answer(&["a"], Some(1), None));
    assert!(answer(&["a"], Some(1), Some("s")) != answer(&["a"], None, Some("s")));
    assert!(answer(&["a", "b"], None, None) != answer(&["a"], None, None));
    assert!(answer(&["a", "b"], None, None) != answer(&["a", "c"], None, None));
    assert!(answer(&["a", "b"], None, None) != answer(&["b", "a"], None, None));
}
