use hyper::header::{HeaderMap, HeaderValue};
use opentelemetry::trace::{SpanId, TraceContextExt, TraceId};
use opentelemetry_sdk::propagation::TraceContextPropagator;
use tracing_otel_http::grpc::{create_server_span, TonicPropagationContext};
use tracing_otel_http::headers::{listed_names, text};
use tracing_otel_http::http::http::Version;
use tracing_otel_http::http::request::RequestDescriptor;
use tracing_otel_http::http::server_make_span::{MakeServerSpan, PropagationContext};
use tracing_otel_http::propagation::{carrier, extract, propagate, Propagated};

const TRACEPARENT: &str = "00-0af7651916cd43dd8448eb211c80319c-b7ad6b7169203331-01";

fn traced() -> HeaderMap {
    let mut headers = HeaderMap::new();
    headers.insert("traceparent", HeaderValue::from_static(TRACEPARENT));
    headers.insert("host", HeaderValue::from_static("api.example.com:8443"));
    headers
}

fn request(headers: HeaderMap) -> RequestDescriptor {
    RequestDescriptor {
        method: "GET".to_string(),
        uri: "/orders?id=5".to_string(),
        scheme: None,
        host: None,
        port: None,
        path: "/orders".to_string(),
        query: Some("id=5".to_string()),
        version: Version::Http11,
        headers,
    }
}

fn trace_id() -> TraceId {
    TraceId::from_hex("0af7651916cd43dd8448eb211c80319c").unwrap()
}

fn span_id() -> SpanId {
    SpanId::from_hex("b7ad6b7169203331").unwrap()
}

#[test]
fn enabled_propagation_takes_the_parent_from_headers() {
    opentelemetry::global::set_text_map_propagator(TraceContextPropagator::new());
    let span = MakeServerSpan::new().make_span(&request(traced()));
    let parent = span.parent().expect("the headers carry a trace context");
    assert!(span.has_parent());
    assert!(parent.has_active_span());
    assert_eq!(parent.span().span_context().trace_id(), trace_id());
    assert_eq!(parent.span().span_context().span_id(), span_id());
    assert!(parent.span().span_context().is_remote());
    assert!(parent.span().span_context().is_sampled());
}

#[test]
fn disabled_propagation_gives_no_parent() {
    opentelemetry::global::set_text_map_propagator(TraceContextPropagator::new());
    let span = MakeServerSpan::new().propagate_context(false).make_span(&request(traced()));
    assert!(span.parent().is_none());
    assert!(!span.has_parent());
}

#[test]
fn headers_without_trace_context_leave_the_span_a_root() {
    opentelemetry::global::set_text_map_propagator(TraceContextPropagator::new());
    let mut headers = HeaderMap::new();
    headers.insert("host", HeaderValue::from_static("api.example.com:8443"));
    let span = MakeServerSpan::new().make_span(&request(headers));
    assert!(span.parent().is_none());
}

#[test]
fn garbled_trace_context_leaves_the_span_a_root() {
    opentelemetry::global::set_text_map_propagator(TraceContextPropagator::new());
    let mut headers = HeaderMap::new();
    headers.insert("traceparent", HeaderValue::from_static("00-not-a-trace-context"));
    assert!(!extract(&headers).has_active_span());
    assert!(!propagate(&headers).has_span);
    assert!(propagate(&headers).parent().is_none());
    let span = MakeServerSpan::new().make_span(&request(headers));
    assert!(span.propagated().is_some());
    assert!(span.parent().is_none());
}

#[test]
fn trace_context_that_is_not_text_is_not_carried() {
    opentelemetry::global::set_text_map_propagator(TraceContextPropagator::new());
    let mut headers = HeaderMap::new();
    let mut bytes = TRACEPARENT.as_bytes().to_vec();
    bytes.push(0xff);
    headers.insert("traceparent", HeaderValue::from_bytes(&bytes).unwrap());
    assert!(propagate(&headers).parent().is_none());
}

#[test]
fn without_a_registered_propagator_nothing_is_extracted() {
    assert!(!extract(&traced()).has_active_span());
    assert!(propagate(&traced()).parent().is_none());
    let span = MakeServerSpan::new().make_span(&request(traced()));
    assert!(span.parent().is_none());
}

#[test]
fn rpc_span_always_takes_the_parent_from_headers() {
    opentelemetry::global::set_text_map_propagator(TraceContextPropagator::new());
    let span = create_server_span(traced());
    let parent = span.parent().expect("the headers carry a trace context");
    assert_eq!(parent.span().span_context().trace_id(), trace_id());
    assert_eq!(parent.span().span_context().span_id(), span_id());
}

#[test]
fn propagation_context_extracts_through_the_global_propagator() {
    opentelemetry::global::set_text_map_propagator(TraceContextPropagator::new());
    let context = PropagationContext::new(traced()).extract();
    assert_eq!(context.span().span_context().trace_id(), trace_id());
    let context = TonicPropagationContext::new(traced()).extract();
    assert_eq!(context.span().span_context().span_id(), span_id());
    assert!(TonicPropagationContext::new(traced()).propagate().has_span);
    assert!(!PropagationContext::new(HeaderMap::new()).extract().has_active_span());
}

#[test]
fn parent_is_the_context_that_carries_a_span() {
    opentelemetry::global::set_text_map_propagator(TraceContextPropagator::new());
    let found = propagate(&traced());
    assert!(found.has_span);
    let parent = found.parent().expect("a context with a span is the parent");
    assert_eq!(parent.span().span_context().trace_id(), trace_id());
    let found = Propagated::new(extract(&traced()), false);
    assert!(found.parent().is_none());
    assert_eq!(found.context.span().span_context().trace_id(), trace_id());
}

#[test]
fn carriers_run_propagation() {
    opentelemetry::global::set_text_map_propagator(TraceContextPropagator::new());
    let found = PropagationContext::new(traced()).propagate();
    assert!(found.has_span);
    assert_eq!(found.context.span().span_context().span_id(), span_id());
    let found = TonicPropagationContext::new(traced()).propagate();
    assert!(found.has_span);
    assert_eq!(found.context.span().span_context().trace_id(), trace_id());
    let found = PropagationContext::new(HeaderMap::new()).propagate();
    assert!(!found.has_span);
    assert!(found.parent().is_none());
}

#[test]
fn disabled_propagation_does_not_run() {
    opentelemetry::global::set_text_map_propagator(TraceContextPropagator::new());
    let span = MakeServerSpan::new().propagate_context(false).make_span(&request(traced()));
    assert!(span.propagated().is_none());
    let span = MakeServerSpan::new().propagate_context(true).make_span(&request(traced()));
    assert!(span.propagated().is_some());
}

#[test]
fn propagation_context_reads_headers_without_case() {
    let mut headers = traced();
    headers.append("x-multi", HeaderValue::from_static("one"));
    headers.append("x-multi", HeaderValue::from_static("two"));
    headers.insert("x-binary", HeaderValue::from_bytes(b"\xfa\xfb").unwrap());
    headers.insert("x-empty", HeaderValue::from_static(""));
    let context = PropagationContext::new(headers.clone());
    assert_eq!(context.get("traceparent"), Some(TRACEPARENT));
    assert_eq!(context.get("TraceParent"), Some(TRACEPARENT));
    assert_eq!(context.get("TRACEPARENT"), Some(TRACEPARENT));
    assert_eq!(context.get("x-multi"), Some("one"));
    assert_eq!(context.get("x-binary"), None);
    assert_eq!(context.get("x-empty"), Some(""));
    assert_eq!(context.get("tracestate"), None);
    assert_eq!(context.get(""), None);
    assert_eq!(context.get("trace parent"), None);
    assert_eq!(context.get("tra\u{e7}eparent"), None);
    assert_eq!(text(&headers, "Host"), Some("api.example.com:8443"));

    let context = TonicPropagationContext::new(headers);
    assert_eq!(context.get("Traceparent"), Some(TRACEPARENT));
    assert_eq!(context.get("x-binary"), None);
}

#[test]
fn long_header_names_are_matched_without_case() {
    let lower = "x-".to_string() + &"long-name-".repeat(9);
    let upper = lower.to_uppercase();
    assert!(lower.len() > 64);
    let mut headers = HeaderMap::new();
    headers.insert(
        hyper::header::HeaderName::from_bytes(lower.as_bytes()).unwrap(),
        HeaderValue::from_static("far"),
    );
    let context = PropagationContext::new(headers);
    assert_eq!(context.get(&lower), Some("far"));
    assert_eq!(context.get(&upper), Some("far"));
    assert_eq!(context.get(&(lower.clone() + "x")), None);
    assert_eq!(context.get(&lower.replace('-', " ")), None);
    assert_eq!(context.get(&"n".repeat(70_000)), None);
    assert_eq!(context.keys(), vec![lower.as_str()]);
}

#[test]
fn propagation_context_lists_each_name_once() {
    let mut headers = traced();
    headers.append("x-multi", HeaderValue::from_static("one"));
    headers.append("x-multi", HeaderValue::from_static("two"));
    headers.insert("x-binary", HeaderValue::from_bytes(b"\xfa\xfb").unwrap());
    let context = PropagationContext::new(headers.clone());
    assert_eq!(context.keys(), vec!["traceparent", "host", "x-multi", "x-binary"]);
    assert_eq!(
        TonicPropagationContext::new(headers).keys(),
        vec!["traceparent", "host", "x-multi", "x-binary"]
    );
    assert!(PropagationContext::new(HeaderMap::new()).keys().is_empty());
}

#[test]
fn names_are_listed_once_and_in_lower_case() {
    let mut headers = HeaderMap::new();
    headers.append("X-Trace", HeaderValue::from_static("one"));
    headers.append("x-trace", HeaderValue::from_static("two"));
    headers.append("X-TRACE", HeaderValue::from_static("three"));
    headers.insert("HoSt", HeaderValue::from_static("example.com"));
    assert_eq!(listed_names(&headers), vec!["x-trace", "host"]);
    assert_eq!(PropagationContext::new(headers.clone()).keys(), vec!["x-trace", "host"]);
    assert_eq!(
        carrier(&headers),
        vec![
            ("x-trace".to_string(), "one".to_string()),
            ("host".to_string(), "example.com".to_string()),
        ]
    );
    let context = PropagationContext::new(headers);
    for key in ["x-trace", "X-Trace", "X-TRACE", "x-TrAcE"] {
        assert_eq!(context.get(key), Some("one"));
    }
}

#[test]
fn carrier_holds_the_text_of_each_name() {
    let mut headers = traced();
    headers.append("x-multi", HeaderValue::from_static("one"));
    headers.append("x-multi", HeaderValue::from_static("two"));
    headers.insert("x-binary", HeaderValue::from_bytes(b"\xfa\xfb").unwrap());
    headers.insert("x-tab", HeaderValue::from_static("a\tb"));
    assert_eq!(
        carrier(&headers),
        vec![
            ("traceparent".to_string(), TRACEPARENT.to_string()),
            ("host".to_string(), "api.example.com:8443".to_string()),
            ("x-multi".to_string(), "one".to_string()),
            ("x-tab".to_string(), "a\tb".to_string()),
        ]
    );
    assert!(carrier(&HeaderMap::new()).is_empty());
}
