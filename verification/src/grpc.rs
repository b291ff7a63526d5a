//! Tracing of gRPC calls.
//!
//! [`TelemetryLayer`] wraps a service in a [`TelemetryMiddleware`]. For each
//! call the middleware hands out its service handle, keeps a fresh clone for
//! the next call, and starts an [`InstrumentedCall`]: the span of the call,
//! parented to the trace context that the request headers propagate. The
//! embedding layer runs the service inside that span and reports how the
//! call resolved; the instrumented call then says what is recorded on the
//! span. The middleware only annotates: responses and errors pass through
//! the embedding layer as they are.

use crate::headers::{first_text, header_entries, listed_names, names_are_normal, text};
use crate::propagation::{carries_span, extract, extracted_parent, propagate, Propagated};
use crate::span::{
    field_views, index_of_found, record_entry, Field, FieldValue, FieldView, Level, Span, SpanView,
};
use crate::text::{decimal, decimal_text};
use hyper::header::{HeaderMap, HeaderValue};
use opentelemetry::Context;
use vstd::pervasive::cloned;
use vstd::prelude::*;

verus! {

/// Layer that adds tracing of gRPC calls to a service.
#[derive(Debug, Clone, Default)]
pub struct TelemetryLayer;

impl TelemetryLayer {
    /// Wraps a service.
    pub fn layer<S>(&self, service: S) -> (middleware: TelemetryMiddleware<S>)
        ensures
            middleware.service() == service,
    {
        TelemetryMiddleware { inner: service }
    }
}

/// Middleware that traces the gRPC calls of the service it wraps.
#[derive(Debug, Clone)]
pub struct TelemetryMiddleware<S> {
    inner: S,
}

impl<S> TelemetryMiddleware<S> {
    /// The handle to the wrapped service that the middleware holds.
    pub closed spec fn service(&self) -> S {
        self.inner
    }

    /// The wrapped service.
    pub fn get_ref(&self) -> (service: &S)
        ensures
            *service == self.service(),
    {
        &self.inner
    }

    /// The wrapped service, for the calls that need exclusive access to it,
    /// such as the check for readiness: the middleware itself does nothing
    /// to the service there.
    pub fn get_mut(&mut self) -> (service: &mut S)
        ensures
            *service == old(self).service(),
            final(self).service() == *final(service),
    {
        &mut self.inner
    }

    /// Hands out the service handle for one call and keeps a clone of it
    /// for the next, so that calls in flight never share a handle.
    pub fn take_service(&mut self) -> (taken: S)
        where S: Clone
        ensures
            taken == old(self).service(),
            cloned(old(self).service(), final(self).service()),
    {
        let mut handle = self.inner.clone();
        core::mem::swap(&mut self.inner, &mut handle);
        handle
    }

    /// Starts a call: hands out the service handle as `take_service` does,
    /// and the instrumented call whose span is current while the service
    /// works.
    pub fn call(&mut self, header_map: HeaderMap<HeaderValue>) -> (started: (S, InstrumentedCall))
        where S: Clone
        ensures
            started.0 == old(self).service(),
            cloned(old(self).service(), final(self).service()),
            started.1@.name == "tonic"@,
            started.1@.level == Level::Info,
            started.1@.fields == rpc_fields(),
            started.1@.propagated is Some,
            started.1@.propagated matches Some(found) ==> found.has_span == carries_span(
                found.context,
            ),
            started.1@.parent() == extracted_parent(started.1@.propagated),
    {
        let inner = self.take_service();
        (inner, InstrumentedCall::begin(header_map))
    }
}

/// The fields that the span of a gRPC call is created with, in order. The
/// status of the call and the status code of the response are declared and
/// left empty until the call resolves; `foo` is a spare field that nothing
/// records.
pub open spec fn rpc_fields() -> Seq<(Seq<char>, FieldView)> {
    seq![
        ("otel.kind"@, FieldView::Text("server"@)),
        ("otel.status_code"@, FieldView::Empty),
        ("http.response.status_code"@, FieldView::Empty),
        ("foo"@, FieldView::Empty),
    ]
}

/// The span of a gRPC call, with what propagation found for it handed in by
/// the caller.
pub fn server_span(propagated: Option<Propagated>) -> (span: Span)
    ensures
        span@ == (SpanView {
            name: "tonic"@,
            level: Level::Info,
            fields: rpc_fields(),
            propagated,
        }),
{
    let mut fields: Vec<Field> = Vec::new();
    fields.push(
        Field { name: "otel.kind".to_owned(), value: FieldValue::Text("server".to_owned()) },
    );
    fields.push(Field { name: "otel.status_code".to_owned(), value: FieldValue::Empty });
    fields.push(Field { name: "http.response.status_code".to_owned(), value: FieldValue::Empty });
    fields.push(Field { name: "foo".to_owned(), value: FieldValue::Empty });
    assert(field_views(fields@) =~= rpc_fields());
    Span::new("tonic", Level::Info, fields, propagated)
}

/// The span of a gRPC call with the given request headers. Propagation
/// always runs for a gRPC call: the span's parent is the context that it
/// extracts from the headers, if that carries a span.
pub fn create_server_span(header_map: HeaderMap<HeaderValue>) -> (span: Span)
    ensures
        span@.name == "tonic"@,
        span@.level == Level::Info,
        span@.fields == rpc_fields(),
        span@.propagated is Some,
        span@.propagated matches Some(found) ==> found.has_span == carries_span(found.context),
        span@.parent() == extracted_parent(span@.propagated),
{
    let ctx = TonicPropagationContext::new(header_map);
    server_span(Some(ctx.propagate()))
}

/// How a call resolved.
#[derive(Clone, Copy, Debug, PartialEq, Eq, Structural)]
pub enum CallOutcome {
    /// The service returned a response with this status code.
    Response { status: u16 },
    /// The service returned an error.
    Failure,
}

/// The fields that an outcome writes to the span of its call, in order. A
/// response sets the status of the call to `ok` and records the status code
/// of the response; an error sets the status to `error` and records nothing
/// else.
pub open spec fn call_fields(outcome: CallOutcome) -> Seq<(Seq<char>, FieldView)> {
    match outcome {
        CallOutcome::Response { status } => seq![
            ("otel.status_code"@, FieldView::Text("ok"@)),
            ("http.response.status_code"@, FieldView::Debug(decimal(status as nat))),
        ],
        CallOutcome::Failure => seq![("otel.status_code"@, FieldView::Text("error"@))],
    }
}

/// The span after a call resolved.
pub open spec fn resolved(span: SpanView, outcome: CallOutcome) -> SpanView {
    span.record_all(call_fields(outcome))
}

impl CallOutcome {
    /// The fields that the outcome writes to the span of its call.
    pub fn fields(self) -> (fields: Vec<Field>)
        ensures
            field_views(fields@) == call_fields(self),
    {
        let mut fields: Vec<Field> = Vec::new();
        match self {
            CallOutcome::Response { status } => {
                fields.push(
                    Field {
                        name: "otel.status_code".to_owned(),
                        value: FieldValue::Text("ok".to_owned()),
                    },
                );
                fields.push(
                    Field {
                        name: "http.response.status_code".to_owned(),
                        value: FieldValue::Debug(decimal_text(status as u128)),
                    },
                );
            },
            CallOutcome::Failure => {
                fields.push(
                    Field {
                        name: "otel.status_code".to_owned(),
                        value: FieldValue::Text("error".to_owned()),
                    },
                );
            },
        }
        assert(field_views(fields@) =~= call_fields(self));
        fields
    }
}

/// The outcome of a call is recorded once on the span that the call was
/// started with. A response leaves the status `ok` and the status code of
/// the response; an error leaves the status `error` and the status code
/// empty. Nothing else about the span changes.
pub proof fn outcome_is_recorded_once(propagated: Option<Propagated>, outcome: CallOutcome)
    ensures
        ({
            let span = SpanView {
                name: "tonic"@,
                level: Level::Info,
                fields: rpc_fields(),
                propagated,
            };
            let done = resolved(span, outcome);
            &&& done.name == span.name
            &&& done.level == span.level
            &&& done.propagated == span.propagated
            &&& done.fields.len() == 4
            &&& done.fields[0] == span.fields[0]
            &&& done.fields[3] == span.fields[3]
            &&& outcome matches CallOutcome::Response { status } ==> {
                &&& done.fields[1] == ("otel.status_code"@, FieldView::Text("ok"@))
                &&& done.fields[2] == (
                    "http.response.status_code"@,
                    FieldView::Debug(decimal(status as nat)),
                )
            }
            &&& outcome is Failure ==> {
                &&& done.fields[1] == ("otel.status_code"@, FieldView::Text("error"@))
                &&& done.fields[2] == ("http.response.status_code"@, FieldView::Empty)
            }
        }),
{
    reveal_strlit("otel.kind");
    reveal_strlit("otel.status_code");
    reveal_strlit("http.response.status_code");
    reveal_strlit("foo");
    assert("otel.kind"@.len() == 9);
    assert("otel.status_code"@.len() == 16);
    assert("http.response.status_code"@.len() == 25);
    assert("foo"@.len() == 3);
    let fields = rpc_fields();
    let writes = call_fields(outcome);
    reveal_with_fuel(SpanView::record_all, 3);
    assert(writes.drop_first().len() == writes.len() - 1);
    if writes.len() == 2 {
        assert(writes.drop_first()[0] == writes[1]);
        assert(writes.drop_first().drop_first().len() == 0);
    }
    index_of_found(fields, "otel.status_code"@, 1);
    match outcome {
        CallOutcome::Response { status } => {
            let first = record_entry(fields, "otel.status_code"@, FieldView::Text("ok"@));
            index_of_found(first, "http.response.status_code"@, 2);
        },
        CallOutcome::Failure => {},
    }
}

/// A call in flight, with the span that is current while the service works.
/// The call ends by `finish`, which records its outcome, or by `cancel` or
/// by being dropped, which record none. Either way it ends once: ending
/// consumes the call.
#[derive(Debug)]
pub struct InstrumentedCall {
    span: Span,
}

impl View for InstrumentedCall {
    type V = SpanView;

    /// The span of the call.
    closed spec fn view(&self) -> SpanView {
        self.span@
    }
}

impl InstrumentedCall {
    /// Starts a call with the given request headers.
    pub fn begin(header_map: HeaderMap<HeaderValue>) -> (call: Self)
        ensures
            call@.name == "tonic"@,
            call@.level == Level::Info,
            call@.fields == rpc_fields(),
            call@.propagated is Some,
            call@.propagated matches Some(found) ==> found.has_span == carries_span(
                found.context,
            ),
            call@.parent() == extracted_parent(call@.propagated),
    {
        InstrumentedCall { span: create_server_span(header_map) }
    }

    /// Starts a call on a span that the caller hands in.
    pub fn on_span(span: Span) -> (call: Self)
        ensures
            call@ == span@,
    {
        InstrumentedCall { span }
    }

    /// The span of the call.
    pub fn span(&self) -> (span: &Span)
        ensures
            span@ == self@,
    {
        &self.span
    }

    /// Ends a call that was cancelled: hands the span back as it is, with no
    /// outcome recorded.
    pub fn cancel(self) -> (span: Span)
        ensures
            span@ == self@,
    {
        self.span
    }

    /// Ends the call: records its outcome on the span, and hands back the
    /// span and the values that were recorded, in order, for the embedding
    /// layer to record them where the span lives. The outcome itself is not
    /// touched: the caller passes the response or the error on as it got it.
    pub fn finish(self, outcome: CallOutcome) -> (ended: (Span, Vec<Field>))
        ensures
            ended.0@ == resolved(self@, outcome),
            field_views(ended.1@) == call_fields(outcome),
    {
        let mut span = self.span;
        span.record_all(outcome.fields());
        (span, outcome.fields())
    }
}

/// The headers of a gRPC request as the carrier that a propagator reads.
pub struct TonicPropagationContext(HeaderMap<HeaderValue>);

impl View for TonicPropagationContext {
    type V = Seq<(Seq<char>, Seq<u8>)>;

    closed spec fn view(&self) -> Seq<(Seq<char>, Seq<u8>)> {
        header_entries(self.0)
    }
}

impl TonicPropagationContext {
    /// Wraps the headers of a request.
    pub fn new(header_map: HeaderMap<HeaderValue>) -> (context: Self)
        ensures
            context@ == header_entries(header_map),
    {
        Self(header_map)
    }

    /// The context that the globally registered propagator extracts from
    /// the headers.
    pub fn extract(&self) -> Context {
        extract(&self.0)
    }

    /// Runs propagation on the headers: extracts the context and asks it
    /// whether it carries a span. Which context comes back is for the
    /// registered propagator to say; what is found of it is true of it.
    pub fn propagate(&self) -> (found: Propagated)
        ensures
            found.has_span == carries_span(found.context),
            found.parent_context() == if carries_span(found.context) {
                Some(found.context)
            } else {
                None::<Context>
            },
    {
        propagate(&self.0)
    }

    /// The text of the first value under `key`; `None` where the headers
    /// have no such name or the value is not visible ASCII.
    pub fn get(&self, key: &str) -> (value: Option<&str>)
        ensures
            match value {
                Some(s) => first_text(self@, key@) == Some(s@),
                None => first_text(self@, key@) is None,
            },
    {
        text(&self.0, key)
    }

    /// The header names that are present, each once and in lower case.
    pub fn keys(&self) -> (keys: Vec<&str>)
        ensures
            keys@.len() == self@.len(),
            forall|i: int| 0 <= i < keys@.len() ==> (#[trigger] keys@[i])@ == self@[i].0,
            names_are_normal(self@),
    {
        listed_names(&self.0)
    }
}

} // verus!
