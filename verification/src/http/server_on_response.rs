//! The response recorder for HTTP requests.
//!
//! [`ServerOnResponse`] classifies a response, writes the classification and
//! the status code to the fields that the request's span declares for them,
//! and describes the event that reports the end of the request.

use crate::headers::{clone_map, header_entries};
use crate::http::request::RequestView;
use crate::http::server_make_span::{request_fields, request_span_declares_outcome};
use crate::propagation::Propagated;
use crate::span::{
    lookup, record_entry, record_then_lookup, Field, FieldValue, FieldView, Level, Span, SpanView,
};
use crate::text::{decimal, push_decimal};
use hyper::header::{HeaderMap, HeaderValue};
use vstd::prelude::*;
use vstd::std_specs::convert::FromSpecImpl;
use vstd::string::*;

verus! {

/// The OpenTelemetry status of a completed call.
#[derive(Clone, Copy, Debug, PartialEq, Eq, Structural)]
pub enum OpenTelemetryStatusCode {
    /// The call completed without a server error.
    Okay,
    /// The call ended in a server error.
    Error,
}

/// What the middleware reads of a response.
#[derive(Debug)]
pub struct ResponseDescriptor {
    /// The numeric status code.
    pub status: u16,
    /// The response headers.
    pub headers: HeaderMap<HeaderValue>,
}

/// Whether a status code is in the server-error class, 500 to 599.
pub open spec fn is_server_error(status: u16) -> bool {
    500 <= status < 600
}

/// The status of a call that ended with the given response status: an error
/// for the server-error class and for nothing else.
pub open spec fn classify(status: u16) -> OpenTelemetryStatusCode {
    if is_server_error(status) {
        OpenTelemetryStatusCode::Error
    } else {
        OpenTelemetryStatusCode::Okay
    }
}

/// The form in which a status is shown.
pub open spec fn status_label(status: OpenTelemetryStatusCode) -> &'static str {
    match status {
        OpenTelemetryStatusCode::Okay => "OK",
        OpenTelemetryStatusCode::Error => "ERROR",
    }
}

impl From<&ResponseDescriptor> for OpenTelemetryStatusCode {
    /// The status of a call that ended with the given response.
    fn from(response: &ResponseDescriptor) -> (status: Self) {
        if response.status >= 500 && response.status < 600 {
            OpenTelemetryStatusCode::Error
        } else {
            OpenTelemetryStatusCode::Okay
        }
    }
}

impl FromSpecImpl<&ResponseDescriptor> for OpenTelemetryStatusCode {
    open spec fn obeys_from_spec() -> bool {
        true
    }

    open spec fn from_spec(response: &ResponseDescriptor) -> OpenTelemetryStatusCode {
        classify(response.status)
    }
}

impl OpenTelemetryStatusCode {
    /// The form in which the status is shown: `OK` or `ERROR`.
    pub fn label(&self) -> (label: &'static str)
        ensures
            label == status_label(*self),
    {
        match self {
            OpenTelemetryStatusCode::Okay => "OK",
            OpenTelemetryStatusCode::Error => "ERROR",
        }
    }
}

/// The unit in which latencies are reported.
#[derive(Clone, Copy, Debug, PartialEq, Eq, Structural)]
pub enum LatencyUnit {
    /// Seconds.
    Seconds,
    /// Milliseconds.
    Millis,
    /// Microseconds.
    Micros,
    /// Nanoseconds.
    Nanos,
    /// A unit that this crate does not know: latencies are then reported in
    /// milliseconds.
    Other,
}

/// A length of time, in nanoseconds.
#[derive(Clone, Copy, Debug, PartialEq, Eq, Structural)]
pub struct Elapsed {
    pub nanos: u128,
}

/// The number of nanoseconds in one unit.
pub open spec fn unit_nanos(unit: LatencyUnit) -> nat {
    match unit {
        LatencyUnit::Seconds => 1_000_000_000,
        LatencyUnit::Millis => 1_000_000,
        LatencyUnit::Micros => 1_000,
        LatencyUnit::Nanos => 1,
        LatencyUnit::Other => 1_000_000,
    }
}

/// What follows the number in a reported latency.
pub open spec fn unit_suffix(unit: LatencyUnit) -> &'static str {
    match unit {
        LatencyUnit::Seconds => " s",
        LatencyUnit::Millis => " ms",
        LatencyUnit::Micros => " μs",
        LatencyUnit::Nanos => " ns",
        LatencyUnit::Other => " ms",
    }
}

impl LatencyUnit {
    /// What follows the number in a reported latency: a space and the
    /// unit's symbol.
    pub fn suffix(self) -> (suffix: &'static str)
        ensures
            suffix == unit_suffix(self),
    {
        match self {
            LatencyUnit::Seconds => " s",
            LatencyUnit::Millis => " ms",
            LatencyUnit::Micros => " μs",
            LatencyUnit::Nanos => " ns",
            LatencyUnit::Other => " ms",
        }
    }
}

/// The time that a request took, with the unit in which it is reported.
#[derive(Clone, Copy, Debug, PartialEq, Eq, Structural)]
pub struct Latency {
    pub unit: LatencyUnit,
    pub duration: Elapsed,
}

/// The whole units that a latency amounts to.
pub open spec fn latency_amount(latency: Latency) -> nat {
    latency.duration.nanos as nat / unit_nanos(latency.unit)
}

/// The text of a latency in whole units: the amount in decimal, a space and
/// the unit's symbol.
pub open spec fn latency_text(latency: Latency) -> Seq<char> {
    decimal(latency_amount(latency)) + unit_suffix(latency.unit)@
}

impl Latency {
    /// The whole units that the latency amounts to.
    pub fn amount(&self) -> (amount: u128)
        ensures
            amount == latency_amount(*self),
    {
        match self.unit {
            LatencyUnit::Seconds => self.duration.nanos / 1_000_000_000,
            LatencyUnit::Millis => self.duration.nanos / 1_000_000,
            LatencyUnit::Micros => self.duration.nanos / 1_000,
            LatencyUnit::Nanos => self.duration.nanos,
            LatencyUnit::Other => self.duration.nanos / 1_000_000,
        }
    }

    /// The latency as it is reported. In milliseconds, microseconds and
    /// nanoseconds that is the amount and the unit's symbol. In seconds it
    /// is the number of seconds with its fraction, which the caller hands
    /// in as `seconds`, and the unit's symbol.
    pub fn text_with_seconds(&self, seconds: &str) -> (text: String)
        ensures
            text@ == if self.unit == LatencyUnit::Seconds {
                seconds@ + unit_suffix(self.unit)@
            } else {
                latency_text(*self)
            },
    {
        let mut text = String::new();
        match self.unit {
            LatencyUnit::Seconds => {
                text.append(seconds);
            },
            _ => {
                push_decimal(&mut text, self.amount());
            },
        }
        text.append(self.unit.suffix());
        assert(self.unit == LatencyUnit::Seconds ==> text@ =~= seconds@ + unit_suffix(self.unit)@);
        assert(self.unit != LatencyUnit::Seconds ==> text@ =~= latency_text(*self));
        text
    }

    /// The latency as it is reported in milliseconds, microseconds or
    /// nanoseconds: the amount and the unit's symbol. A latency in seconds
    /// is reported with its fraction, which this crate does not compute:
    /// for that unit there is no text.
    pub fn text(&self) -> (text: Option<String>)
        ensures
            match text {
                Some(s) => self.unit != LatencyUnit::Seconds && s@ == latency_text(*self),
                None => self.unit == LatencyUnit::Seconds,
            },
    {
        match self.unit {
            LatencyUnit::Seconds => None,
            _ => {
                let mut text = String::new();
                push_decimal(&mut text, self.amount());
                text.append(self.unit.suffix());
                assert(text@ =~= latency_text(*self));
                Some(text)
            },
        }
    }
}

/// The amounts of one duration in the four units are related by powers of
/// 1000: each is the next finer one divided by 1000, rounded down. A unit
/// that is not known counts as milliseconds.
pub proof fn amounts_scale_by_thousands(duration: Elapsed)
    ensures
        latency_amount(Latency { unit: LatencyUnit::Nanos, duration }) == duration.nanos,
        latency_amount(Latency { unit: LatencyUnit::Micros, duration }) == latency_amount(
            Latency { unit: LatencyUnit::Nanos, duration },
        ) / 1000,
        latency_amount(Latency { unit: LatencyUnit::Millis, duration }) == latency_amount(
            Latency { unit: LatencyUnit::Micros, duration },
        ) / 1000,
        latency_amount(Latency { unit: LatencyUnit::Seconds, duration }) == latency_amount(
            Latency { unit: LatencyUnit::Millis, duration },
        ) / 1000,
        latency_amount(Latency { unit: LatencyUnit::Other, duration }) == latency_amount(
            Latency { unit: LatencyUnit::Millis, duration },
        ),
        latency_text(Latency { unit: LatencyUnit::Other, duration }) == latency_text(
            Latency { unit: LatencyUnit::Millis, duration },
        ),
{
    let n = duration.nanos as int;
    assert(n / 1_000_000 == (n / 1_000) / 1_000) by (nonlinear_arith)
        requires
            n >= 0,
    ;
    assert(n / 1_000_000_000 == (n / 1_000_000) / 1_000) by (nonlinear_arith)
        requires
            n >= 0,
    ;
}

/// The event that reports the end of a request.
#[derive(Debug)]
pub struct CompletionEvent {
    /// The severity of the event.
    pub level: Level,
    /// The time that the request took.
    pub latency: Latency,
    /// The response headers, where they are included.
    pub response_headers: Option<HeaderMap<HeaderValue>>,
    /// The message of the event.
    pub message: String,
}

/// Mathematical model of a [`CompletionEvent`].
pub struct CompletionEventView {
    pub level: Level,
    pub latency: Latency,
    pub response_headers: Option<Seq<(Seq<char>, Seq<u8>)>>,
    pub message: Seq<char>,
}

impl View for CompletionEvent {
    type V = CompletionEventView;

    open spec fn view(&self) -> CompletionEventView {
        CompletionEventView {
            level: self.level,
            latency: self.latency,
            response_headers: match self.response_headers {
                Some(map) => Some(header_entries(map)),
                None => None,
            },
            message: self.message@,
        }
    }
}

/// Records the outcome of an HTTP request on its span and describes the
/// event that reports it.
#[derive(Clone, Debug)]
pub struct ServerOnResponse {
    level: Level,
    latency_unit: LatencyUnit,
    include_headers: bool,
}

/// Mathematical model of a [`ServerOnResponse`].
pub struct ServerOnResponseView {
    pub level: Level,
    pub latency_unit: LatencyUnit,
    pub include_headers: bool,
}

impl View for ServerOnResponse {
    type V = ServerOnResponseView;

    closed spec fn view(&self) -> ServerOnResponseView {
        ServerOnResponseView {
            level: self.level,
            latency_unit: self.latency_unit,
            include_headers: self.include_headers,
        }
    }
}

/// The configuration that a new recorder starts with.
pub open spec fn default_on_response() -> ServerOnResponseView {
    ServerOnResponseView {
        level: Level::Info,
        latency_unit: LatencyUnit::Millis,
        include_headers: false,
    }
}

/// The fields that a response writes to the span of its request, in order:
/// the status of the call, then the status code of the response.
pub open spec fn outcome_fields(status: u16) -> Seq<(Seq<char>, FieldView)> {
    seq![
        ("otel.status_code"@, FieldView::Status(classify(status))),
        ("http.response.status_code"@, FieldView::Unsigned(status as u64)),
    ]
}

/// After a response was recorded on the span of its request, the span shows
/// the status code of the response, and shows the status of an error
/// exactly for a response of the server-error class.
pub proof fn outcome_shows_on_request_span(
    level: Level,
    component: Seq<char>,
    request: RequestView,
    propagated: Option<Propagated>,
    status: u16,
)
    ensures
        ({
            let span = SpanView {
                name: "request"@,
                level,
                fields: request_fields(component, request),
                propagated,
            };
            let done = span.record_all(outcome_fields(status)).fields;
            &&& lookup(done, "http.response.status_code"@) == Some(
                FieldView::Unsigned(status as u64),
            )
            &&& is_server_error(status) ==> lookup(done, "otel.status_code"@) == Some(
                FieldView::Status(OpenTelemetryStatusCode::Error),
            )
            &&& !is_server_error(status) ==> lookup(done, "otel.status_code"@) == Some(
                FieldView::Status(OpenTelemetryStatusCode::Okay),
            )
        }),
{
    let fields = request_fields(component, request);
    let status_value = outcome_fields(status)[0].1;
    let code_value = outcome_fields(status)[1].1;
    let first = record_entry(fields, "otel.status_code"@, status_value);
    let span = SpanView { name: "request"@, level, fields, propagated };
    assert(span.record_all(outcome_fields(status)).fields == record_entry(
        first,
        "http.response.status_code"@,
        code_value,
    )) by {
        reveal_with_fuel(SpanView::record_all, 3);
        let writes = outcome_fields(status);
        assert(writes.drop_first().len() == 1);
        assert(writes.drop_first()[0] == writes[1]);
        assert(writes.drop_first().drop_first().len() == 0);
    }
    request_span_declares_outcome(component, request);
    record_then_lookup(fields, "otel.status_code"@, status_value, "otel.status_code"@);
    record_then_lookup(fields, "otel.status_code"@, status_value, "http.response.status_code"@);
    record_then_lookup(first, "http.response.status_code"@, code_value, "otel.status_code"@);
    record_then_lookup(
        first,
        "http.response.status_code"@,
        code_value,
        "http.response.status_code"@,
    );
}

impl Default for ServerOnResponse {
    fn default() -> (on_response: Self)
        ensures
            on_response@ == default_on_response(),
    {
        Self { level: Level::Info, latency_unit: LatencyUnit::Millis, include_headers: false }
    }
}

impl ServerOnResponse {
    /// Creates a recorder with the default configuration: informational
    /// severity, latencies in milliseconds, headers not included.
    pub fn new() -> (on_response: Self)
        ensures
            on_response@ == default_on_response(),
    {
        Self::default()
    }

    /// Sets the severity that is configured for the events.
    pub fn level(self, level: Level) -> (on_response: Self)
        ensures
            on_response@ == (ServerOnResponseView { level, ..self@ }),
    {
        let mut on_response = self;
        on_response.level = level;
        on_response
    }

    /// Sets the unit in which latencies are reported.
    pub fn latency_unit(self, latency_unit: LatencyUnit) -> (on_response: Self)
        ensures
            on_response@ == (ServerOnResponseView { latency_unit, ..self@ }),
    {
        let mut on_response = self;
        on_response.latency_unit = latency_unit;
        on_response
    }

    /// Sets whether the response headers are included on the events.
    pub fn include_headers(self, include_headers: bool) -> (on_response: Self)
        ensures
            on_response@ == (ServerOnResponseView { include_headers, ..self@ }),
    {
        let mut on_response = self;
        on_response.include_headers = include_headers;
        on_response
    }

    /// The fields that a response writes to the span of its request.
    pub fn outcome(response: &ResponseDescriptor) -> (fields: Vec<Field>)
        ensures
            crate::span::field_views(fields@) == outcome_fields(response.status),
    {
        let status = OpenTelemetryStatusCode::from(response);
        let mut fields: Vec<Field> = Vec::new();
        fields.push(
            Field {
                name: "otel.status_code".to_owned(),
                value: FieldValue::Status(status),
            },
        );
        fields.push(
            Field {
                name: "http.response.status_code".to_owned(),
                value: FieldValue::Unsigned(response.status as u64),
            },
        );
        assert(crate::span::field_views(fields@) =~= outcome_fields(response.status));
        fields
    }

    /// Records the outcome of a request on its span: the status of the call,
    /// an error for a response of the server-error class and ok otherwise,
    /// and the status code. Returns the one event that reports the end of
    /// the request.
    pub fn on_response(
        self,
        response: &ResponseDescriptor,
        latency: Elapsed,
        span: &mut Span,
    ) -> (event: CompletionEvent)
        ensures
            final(span)@ == old(span)@.record_all(outcome_fields(response.status)),
            event@ == (CompletionEventView {
                level: Level::Info,
                latency: Latency { unit: self@.latency_unit, duration: latency },
                response_headers: if self@.include_headers {
                    Some(header_entries(response.headers))
                } else {
                    None
                },
                message: "finished processing request"@,
            }),
    {
        span.record_all(Self::outcome(response));
        self.event(response, latency)
    }

    /// The event that reports the end of a request: at informational
    /// severity whatever severity is configured, with the latency in the
    /// configured unit, the response headers where they are included, and a
    /// fixed message.
    pub fn event(&self, response: &ResponseDescriptor, latency: Elapsed) -> (event: CompletionEvent)
        ensures
            event@ == (CompletionEventView {
                level: Level::Info,
                latency: Latency { unit: self@.latency_unit, duration: latency },
                response_headers: if self@.include_headers {
                    Some(header_entries(response.headers))
                } else {
                    None
                },
                message: "finished processing request"@,
            }),
    {
        let latency = Latency { unit: self.latency_unit, duration: latency };
        let response_headers = if self.include_headers {
            Some(clone_map(&response.headers))
        } else {
            None
        };
        CompletionEvent {
            level: Level::Info,
            latency,
            response_headers,
            message: "finished processing request".to_owned(),
        }
    }
}

/// The status code of a response as a signed number.
pub fn status(res: &ResponseDescriptor) -> (code: Option<i32>)
    ensures
        code == Some(res.status as i32),
{
    Some(res.status as i32)
}

} // verus!
