use hyper::header::{HeaderMap, HeaderValue, CONTENT_TYPE, SET_COOKIE};
use tracing_otel_http::http::http::Version;
use tracing_otel_http::http::request::RequestDescriptor;
use tracing_otel_http::http::server_make_span::MakeServerSpan;
use tracing_otel_http::http::server_on_response::{
    status, CompletionEvent, Elapsed, Latency, LatencyUnit, OpenTelemetryStatusCode,
    ResponseDescriptor, ServerOnResponse,
};
use tracing_otel_http::span::{Field, FieldValue, Level, Span};

fn request_span() -> Span {
    let request = RequestDescriptor {
        method: "GET".to_string(),
        uri: "/".to_string(),
        scheme: None,
        host: None,
        port: None,
        path: "/".to_string(),
        query: None,
        version: Version::Http11,
        headers: HeaderMap::new(),
    };
    MakeServerSpan::new().propagate_context(false).make_span(&request)
}

fn response(status: u16) -> ResponseDescriptor {
    ResponseDescriptor { status, headers: HeaderMap::new() }
}

fn record(status: u16) -> (Span, CompletionEvent) {
    let mut span = request_span();
    let event =
        ServerOnResponse::new().on_response(&response(status), Elapsed { nanos: 0 }, &mut span);
    (span, event)
}

#[test]
fn service_unavailable_is_an_error() {
    let mut span = request_span();
    let event = ServerOnResponse::new().on_response(
        &response(503),
        Elapsed { nanos: 12_345_678 },
        &mut span,
    );
    assert_eq!(OpenTelemetryStatusCode::from(&response(503)), OpenTelemetryStatusCode::Error);
    assert_eq!(
        span.field("otel.status_code"),
        Some(&FieldValue::Status(OpenTelemetryStatusCode::Error))
    );
    assert_eq!(span.field("http.response.status_code"), Some(&FieldValue::Unsigned(503)));
    assert_eq!(event.level, Level::Info);
    assert_eq!(event.message, "finished processing request");
    assert_eq!(event.latency.text(), Some("12 ms".to_string()));
    assert!(event.response_headers.is_none());
}

#[test]
fn success_is_ok() {
    let (span, _) = record(200);
    assert_eq!(
        span.field("otel.status_code"),
        Some(&FieldValue::Status(OpenTelemetryStatusCode::Okay))
    );
    assert_eq!(span.field("http.response.status_code"), Some(&FieldValue::Unsigned(200)));
}

#[test]
fn only_the_server_error_class_is_an_error() {
    let cases: [(u16, OpenTelemetryStatusCode); 10] = [
        (0, OpenTelemetryStatusCode::Okay),
        (100, OpenTelemetryStatusCode::Okay),
        (404, OpenTelemetryStatusCode::Okay),
        (499, OpenTelemetryStatusCode::Okay),
        (500, OpenTelemetryStatusCode::Error),
        (503, OpenTelemetryStatusCode::Error),
        (599, OpenTelemetryStatusCode::Error),
        (600, OpenTelemetryStatusCode::Okay),
        (999, OpenTelemetryStatusCode::Okay),
        (u16::MAX, OpenTelemetryStatusCode::Okay),
    ];
    for (code, expected) in cases {
        assert_eq!(OpenTelemetryStatusCode::from(&response(code)), expected, "for {}", code);
        let (span, _) = record(code);
        assert_eq!(span.field("otel.status_code"), Some(&FieldValue::Status(expected)));
        assert_eq!(
            span.field("http.response.status_code"),
            Some(&FieldValue::Unsigned(u64::from(code)))
        );
    }
}

#[test]
fn status_labels() {
    assert_eq!(OpenTelemetryStatusCode::Okay.label(), "OK");
    assert_eq!(OpenTelemetryStatusCode::Error.label(), "ERROR");
}

#[test]
fn status_code_as_signed_number() {
    assert_eq!(status(&response(503)), Some(503));
    assert_eq!(status(&response(0)), Some(0));
    assert_eq!(status(&response(u16::MAX)), Some(65535));
}

#[test]
fn outcome_lists_the_two_fields() {
    let fields = ServerOnResponse::outcome(&response(503));
    assert_eq!(
        fields,
        vec![
            Field {
                name: "otel.status_code".to_string(),
                value: FieldValue::Status(OpenTelemetryStatusCode::Error)
            },
            Field {
                name: "http.response.status_code".to_string(),
                value: FieldValue::Unsigned(503)
            },
        ]
    );
}

#[test]
fn recording_leaves_the_other_fields() {
    let before = request_span();
    let (after, _) = record(503);
    assert_eq!(before.fields().len(), after.fields().len());
    for (old, new) in before.fields().iter().zip(after.fields().iter()) {
        assert_eq!(old.name, new.name);
        if old.name != "otel.status_code" && old.name != "http.response.status_code" {
            assert_eq!(old.value, new.value);
        }
    }
}

#[test]
fn span_without_outcome_fields_takes_nothing() {
    let mut span = Span::new(
        "bare",
        Level::Info,
        vec![Field { name: "status".to_string(), value: FieldValue::Empty }],
        None,
    );
    ServerOnResponse::new().on_response(&response(503), Elapsed { nanos: 1 }, &mut span);
    assert_eq!(span.fields().len(), 1);
    assert_eq!(span.field("status"), Some(&FieldValue::Empty));
}

#[test]
fn last_response_wins() {
    let mut span = request_span();
    ServerOnResponse::new().on_response(&response(503), Elapsed { nanos: 1 }, &mut span);
    ServerOnResponse::new().on_response(&response(200), Elapsed { nanos: 1 }, &mut span);
    assert_eq!(
        span.field("otel.status_code"),
        Some(&FieldValue::Status(OpenTelemetryStatusCode::Okay))
    );
    assert_eq!(span.field("http.response.status_code"), Some(&FieldValue::Unsigned(200)));
}

#[test]
fn event_is_informational_whatever_is_configured() {
    for level in [Level::Trace, Level::Debug, Level::Info, Level::Warn, Level::Error] {
        let mut span = request_span();
        let event = ServerOnResponse::new().level(level).on_response(
            &response(200),
            Elapsed { nanos: 5 },
            &mut span,
        );
        assert_eq!(event.level, Level::Info);
    }
}

#[test]
fn headers_are_included_on_request() {
    let mut headers = HeaderMap::new();
    headers.insert(CONTENT_TYPE, HeaderValue::from_static("text/plain"));
    let mut cookie = HeaderValue::from_static("id=1");
    cookie.set_sensitive(true);
    headers.append(SET_COOKIE, cookie);
    let response = ResponseDescriptor { status: 200, headers: headers.clone() };

    let mut span = request_span();
    let event = ServerOnResponse::new().include_headers(true).on_response(
        &response,
        Elapsed { nanos: 5 },
        &mut span,
    );
    let included = event.response_headers.expect("headers are included");
    assert_eq!(included, headers);
    assert!(included.get(SET_COOKIE).unwrap().is_sensitive());

    let mut span = request_span();
    let event = ServerOnResponse::new().include_headers(false).on_response(
        &response,
        Elapsed { nanos: 5 },
        &mut span,
    );
    assert!(event.response_headers.is_none());
}

#[test]
fn latency_is_reported_in_the_configured_unit() {
    let elapsed = Elapsed { nanos: 1_234_567_890 };
    let mut span = request_span();
    let event = ServerOnResponse::new().on_response(&response(200), elapsed, &mut span);
    assert_eq!(event.latency, Latency { unit: LatencyUnit::Millis, duration: elapsed });
    assert_eq!(event.latency.text(), Some("1234 ms".to_string()));

    let event = ServerOnResponse::new().latency_unit(LatencyUnit::Micros).on_response(
        &response(200),
        elapsed,
        &mut span,
    );
    assert_eq!(event.latency.text(), Some("1234567 \u{3bc}s".to_string()));

    let event = ServerOnResponse::new().latency_unit(LatencyUnit::Nanos).on_response(
        &response(200),
        elapsed,
        &mut span,
    );
    assert_eq!(event.latency.text(), Some("1234567890 ns".to_string()));

    let event = ServerOnResponse::new().latency_unit(LatencyUnit::Seconds).on_response(
        &response(200),
        elapsed,
        &mut span,
    );
    assert_eq!(event.latency.unit, LatencyUnit::Seconds);
    assert_eq!(event.latency.text(), None);
    assert_eq!(event.latency.amount(), 1);
}

#[test]
fn latency_amounts_scale_by_thousands() {
    let durations: [u128; 7] =
        [0, 1, 999, 1_000, 999_999_999, 1_000_000_000, 18_446_744_073_709_551_615_999_999_999];
    for nanos in durations {
        let duration = Elapsed { nanos };
        let amount = |unit: LatencyUnit| Latency { unit, duration }.amount();
        assert_eq!(amount(LatencyUnit::Nanos), nanos);
        assert_eq!(amount(LatencyUnit::Micros), amount(LatencyUnit::Nanos) / 1000);
        assert_eq!(amount(LatencyUnit::Millis), amount(LatencyUnit::Micros) / 1000);
        assert_eq!(amount(LatencyUnit::Seconds), amount(LatencyUnit::Millis) / 1000);
    }
}

#[test]
fn latency_text_matches_the_standard_duration() {
    let durations: [std::time::Duration; 5] = [
        std::time::Duration::ZERO,
        std::time::Duration::from_nanos(1),
        std::time::Duration::from_micros(1_500),
        std::time::Duration::new(3, 999_999_999),
        std::time::Duration::MAX,
    ];
    for duration in durations {
        let elapsed = Elapsed { nanos: duration.as_nanos() };
        assert_eq!(
            Latency { unit: LatencyUnit::Millis, duration: elapsed }.text(),
            Some(format!("{} ms", duration.as_millis()))
        );
        assert_eq!(
            Latency { unit: LatencyUnit::Micros, duration: elapsed }.text(),
            Some(format!("{} \u{3bc}s", duration.as_micros()))
        );
        assert_eq!(
            Latency { unit: LatencyUnit::Nanos, duration: elapsed }.text(),
            Some(format!("{} ns", duration.as_nanos()))
        );
        assert_eq!(
            Latency { unit: LatencyUnit::Seconds, duration: elapsed }.amount(),
            u128::from(duration.as_secs())
        );
    }
}

#[test]
fn latency_in_seconds_takes_the_fraction_from_the_caller() {
    let duration = std::time::Duration::from_millis(1_500);
    let elapsed = Elapsed { nanos: duration.as_nanos() };
    let seconds = Latency { unit: LatencyUnit::Seconds, duration: elapsed };
    assert_eq!(seconds.text_with_seconds(&duration.as_secs_f64().to_string()), "1.5 s");
    assert_eq!(seconds.text_with_seconds(""), " s");
    let millis = Latency { unit: LatencyUnit::Millis, duration: elapsed };
    assert_eq!(millis.text_with_seconds("1.5"), "1500 ms");
    let micros = Latency { unit: LatencyUnit::Micros, duration: elapsed };
    assert_eq!(micros.text_with_seconds("1.5"), "1500000 \u{3bc}s");
    let nanos = Latency { unit: LatencyUnit::Nanos, duration: elapsed };
    assert_eq!(nanos.text_with_seconds("1.5"), "1500000000 ns");
}

#[test]
fn zero_latency_is_reported() {
    let zero = Elapsed { nanos: 0 };
    assert_eq!(Latency { unit: LatencyUnit::Millis, duration: zero }.text(), Some("0 ms".into()));
    assert_eq!(Latency { unit: LatencyUnit::Nanos, duration: zero }.text(), Some("0 ns".into()));
    assert_eq!(Latency { unit: LatencyUnit::Seconds, duration: zero }.amount(), 0);
}

#[test]
fn unit_suffixes() {
    assert_eq!(LatencyUnit::Seconds.suffix(), " s");
    assert_eq!(LatencyUnit::Millis.suffix(), " ms");
    assert_eq!(LatencyUnit::Micros.suffix(), " \u{3bc}s");
    assert_eq!(LatencyUnit::Nanos.suffix(), " ns");
    assert_eq!(LatencyUnit::Other.suffix(), " ms");
}

#[test]
fn unknown_unit_is_reported_in_milliseconds() {
    let elapsed = Elapsed { nanos: 2_500_000 };
    let latency = Latency { unit: LatencyUnit::Other, duration: elapsed };
    assert_eq!(latency.amount(), 2);
    assert_eq!(latency.text(), Some("2 ms".to_string()));
    assert_eq!(latency.text_with_seconds("0.0025"), "2 ms");
}

#[test]
fn recorder_defaults() {
    let mut span = request_span();
    let event =
        ServerOnResponse::default().on_response(&response(200), Elapsed { nanos: 0 }, &mut span);
    assert_eq!(event.latency.unit, LatencyUnit::Millis);
    assert!(event.response_headers.is_none());
    assert_eq!(event.level, Level::Info);
}
