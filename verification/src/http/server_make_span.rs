//! The span factory for HTTP requests.
//!
//! [`MakeServerSpan`] describes the span of an inbound request with the
//! fields of the OpenTelemetry semantic conventions for HTTP servers, and
//! parents it to the trace context that the request headers propagate.

use crate::headers::{
    empty_value, first, first_text, first_value, header_entries, listed_names, names_are_normal,
    text,
};
use crate::http::http::{http_version, version_text, HttpVersion};
use crate::http::request::{server_address, RequestDescriptor, RequestView};
use crate::propagation::{carries_span, extract, extracted_parent, propagate, Propagated};
use crate::span::{
    field_views, index_of, index_of_found, lookup, Field, FieldValue, FieldView, Level, Span,
    SpanView,
};
use hyper::header::{HeaderMap, HeaderValue};
use opentelemetry::Context;
use vstd::prelude::*;

verus! {

/// Creates the span of an incoming HTTP request.
///
/// The span's fields follow the OpenTelemetry semantic conventions for HTTP
/// servers.
#[derive(Debug, Clone)]
pub struct MakeServerSpan {
    level: Level,
    component: String,
    include_headers: bool,
    propagate_context: bool,
}

/// Mathematical model of a [`MakeServerSpan`].
pub struct MakeServerSpanView {
    pub level: Level,
    pub component: Seq<char>,
    pub include_headers: bool,
    pub propagate_context: bool,
}

impl View for MakeServerSpan {
    type V = MakeServerSpanView;

    closed spec fn view(&self) -> MakeServerSpanView {
        MakeServerSpanView {
            level: self.level,
            component: self.component@,
            include_headers: self.include_headers,
            propagate_context: self.propagate_context,
        }
    }
}

/// The configuration that a new factory starts with.
pub open spec fn default_make_span() -> MakeServerSpanView {
    MakeServerSpanView {
        level: Level::Debug,
        component: "tower.request"@,
        include_headers: false,
        propagate_context: true,
    }
}

/// The bytes of the `User-Agent` header of a request; none where the request
/// has no such header.
pub open spec fn user_agent(headers: Seq<(Seq<char>, Seq<u8>)>) -> Seq<u8> {
    match first_value(headers, "user-agent"@) {
        Some(bytes) => bytes,
        None => Seq::empty(),
    }
}

/// The fields that the span of a request is created with, in order. The
/// status code and the headers are declared and left empty, so that they can
/// be recorded later.
pub open spec fn request_fields(component: Seq<char>, request: RequestView) -> Seq<
    (Seq<char>, FieldView),
> {
    let address = server_address(request.host, request.port, first_value(request.headers, "host"@));
    seq![
        ("component"@, FieldView::Text(component)),
        ("method"@, FieldView::Text(request.method)),
        ("uri"@, FieldView::Text(request.uri)),
        ("version"@, FieldView::Debug(version_text(request.version)@)),
        ("headers"@, FieldView::Empty),
        ("otel.kind"@, FieldView::Text("server"@)),
        ("otel.status_code"@, FieldView::Empty),
        ("http.host"@, FieldView::Text(address.0)),
        ("http.request.method"@, FieldView::Text(request.method)),
        ("http.route"@, FieldView::Text(request.path)),
        ("http.path_group"@, FieldView::Empty),
        ("http.response.status_code"@, FieldView::Empty),
        ("network.protocol.name"@, FieldView::Text(http_version(request.version).protocol@)),
        ("network.protocol.version"@, FieldView::Text(http_version(request.version).version@)),
        ("network.transport"@, FieldView::Text("tcp"@)),
        ("server.address"@, FieldView::Text(address.0)),
        ("server.port"@, FieldView::Unsigned(address.1 as u64)),
        ("telemetry.sdk.language"@, FieldView::Text("rust"@)),
        (
            "url.scheme"@,
            FieldView::Text(
                match request.scheme {
                    Some(scheme) => scheme,
                    None => "httx"@,
                },
            ),
        ),
        ("url.path"@, FieldView::Text(request.path)),
        (
            "url.query"@,
            FieldView::Text(
                match request.query {
                    Some(query) => query,
                    None => ""@,
                },
            ),
        ),
        ("user_agent.original"@, FieldView::Header(user_agent(request.headers))),
    ]
}

/// Reveals the names of the fields that the span of a request declares.
proof fn reveal_field_names()
    ensures
        "component"@.len() == 9,
        "method"@.len() == 6,
        "uri"@.len() == 3,
        "version"@.len() == 7,
        "headers"@.len() == 7,
        "otel.kind"@.len() == 9,
        "otel.status_code"@.len() == 16,
        "http.host"@.len() == 9,
        "http.request.method"@.len() == 19,
        "http.route"@.len() == 10,
        "http.path_group"@.len() == 15,
        "http.response.status_code"@.len() == 25,
        "network.protocol.name"@.len() == 21,
        "network.protocol.version"@.len() == 24,
        "network.transport"@.len() == 17,
        "server.address"@.len() == 14,
        "server.port"@.len() == 11,
        "telemetry.sdk.language"@.len() == 22,
        "url.scheme"@.len() == 10,
        "url.path"@.len() == 8,
        "url.query"@.len() == 9,
        "user_agent.original"@.len() == 19,
        "component"@[0] == 'c',
        "otel.kind"@[0] == 'o',
        "http.host"@[0] == 'h',
        "url.query"@[0] == 'u',
        "version"@[0] == 'v',
        "headers"@[0] == 'h',
        "http.route"@[0] == 'h',
        "url.scheme"@[0] == 'u',
        "http.request.method"@[0] == 'h',
        "user_agent.original"@[0] == 'u',
{
    reveal_strlit("component");
    reveal_strlit("method");
    reveal_strlit("uri");
    reveal_strlit("version");
    reveal_strlit("headers");
    reveal_strlit("otel.kind");
    reveal_strlit("otel.status_code");
    reveal_strlit("http.host");
    reveal_strlit("http.request.method");
    reveal_strlit("http.route");
    reveal_strlit("http.path_group");
    reveal_strlit("http.response.status_code");
    reveal_strlit("network.protocol.name");
    reveal_strlit("network.protocol.version");
    reveal_strlit("network.transport");
    reveal_strlit("server.address");
    reveal_strlit("server.port");
    reveal_strlit("telemetry.sdk.language");
    reveal_strlit("url.scheme");
    reveal_strlit("url.path");
    reveal_strlit("url.query");
    reveal_strlit("user_agent.original");
}

/// The span of a request declares each of its names once: under each name it
/// shows the value that the name was declared with.
pub proof fn request_span_shows_each_field(component: Seq<char>, request: RequestView, k: int)
    requires
        0 <= k < 22,
    ensures
        request_fields(component, request).len() == 22,
        index_of(request_fields(component, request), request_fields(component, request)[k].0)
            == Some(k),
        lookup(request_fields(component, request), request_fields(component, request)[k].0)
            == Some(request_fields(component, request)[k].1),
{
    reveal_field_names();
    let fields = request_fields(component, request);
    assert forall|j: int| 0 <= j < k implies fields[j].0 != fields[k].0 by {
        assert(fields[j].0.len() != fields[k].0.len() || fields[j].0[0] != fields[k].0[0]);
    }
    index_of_found(fields, fields[k].0, k);
}

/// The span of a request shows the server address under `server.address`
/// and `http.host`, and the port under `server.port`.
pub proof fn span_shows_server_address(component: Seq<char>, request: RequestView)
    ensures
        ({
            let fields = request_fields(component, request);
            let address = server_address(
                request.host,
                request.port,
                first_value(request.headers, "host"@),
            );
            &&& lookup(fields, "server.address"@) == Some(FieldView::Text(address.0))
            &&& lookup(fields, "http.host"@) == Some(FieldView::Text(address.0))
            &&& lookup(fields, "server.port"@) == Some(FieldView::Unsigned(address.1 as u64))
        }),
{
    reveal_field_names();
    let fields = request_fields(component, request);
    index_of_found(fields, "server.address"@, 15);
    index_of_found(fields, "http.host"@, 7);
    index_of_found(fields, "server.port"@, 16);
}

/// The span of a request declares the two fields that hold the outcome, and
/// creates them empty.
pub proof fn request_span_declares_outcome(component: Seq<char>, request: RequestView)
    ensures
        index_of(request_fields(component, request), "otel.status_code"@) == Some(6int),
        index_of(request_fields(component, request), "http.response.status_code"@) == Some(11int),
        lookup(request_fields(component, request), "otel.status_code"@) == Some(FieldView::Empty),
        lookup(request_fields(component, request), "http.response.status_code"@) == Some(
            FieldView::Empty,
        ),
        lookup(request_fields(component, request), "headers"@) == Some(FieldView::Empty),
{
    reveal_field_names();
    let fields = request_fields(component, request);
    index_of_found(fields, "otel.status_code"@, 6);
    index_of_found(fields, "http.response.status_code"@, 11);
    index_of_found(fields, "headers"@, 4);
}

fn field(name: &str, value: FieldValue) -> (field: Field)
    ensures
        field@ == (name@, value@),
{
    Field { name: name.to_owned(), value }
}

fn text_value(text: &str) -> (value: FieldValue)
    ensures
        value@ == FieldView::Text(text@),
{
    FieldValue::Text(text.to_owned())
}

impl MakeServerSpan {
    /// Creates a factory with the default configuration: spans at debug
    /// severity, component `tower.request`, headers not included, the parent
    /// context taken from the request headers.
    pub fn new() -> (make: Self)
        ensures
            make@ == default_make_span(),
    {
        Self {
            level: Level::Debug,
            component: "tower.request".to_owned(),
            include_headers: false,
            propagate_context: true,
        }
    }

    /// Sets the severity of the spans.
    pub fn level(self, level: Level) -> (make: Self)
        ensures
            make@ == (MakeServerSpanView { level, ..self@ }),
    {
        let mut make = self;
        make.level = level;
        make
    }

    /// Sets the component name that the spans carry.
    pub fn component(self, component: &str) -> (make: Self)
        ensures
            make@ == (MakeServerSpanView { component: component@, ..self@ }),
    {
        let mut make = self;
        make.component = component.to_owned();
        make
    }

    /// Sets whether request headers are to be included on the spans. The
    /// factory itself declares the `headers` field and records nothing on
    /// it, whatever is set here.
    pub fn include_headers(self, include_headers: bool) -> (make: Self)
        ensures
            make@ == (MakeServerSpanView { include_headers, ..self@ }),
    {
        let mut make = self;
        make.include_headers = include_headers;
        make
    }

    /// Sets whether the spans take their parent context from the request
    /// headers.
    pub fn propagate_context(self, propagate_context: bool) -> (make: Self)
        ensures
            make@ == (MakeServerSpanView { propagate_context, ..self@ }),
    {
        let mut make = self;
        make.propagate_context = propagate_context;
        make
    }

    /// Whether the spans take their parent context from the request headers.
    pub fn propagates(&self) -> (propagates: bool)
        ensures
            propagates == self@.propagate_context,
    {
        self.propagate_context
    }

    /// The span of a request, with what propagation found for it handed in
    /// by the caller.
    pub fn span_with(&self, request: &RequestDescriptor, propagated: Option<Propagated>) -> (span:
        Span)
        ensures
            span@ == (SpanView {
                name: "request"@,
                level: self@.level,
                fields: request_fields(self@.component, request@),
                propagated,
            }),
    {
        let (hostname, port) = request.server_address();
        let http_version = HttpVersion::from(request.version);
        let agent = match first(&request.headers, "user-agent") {
            Some(value) => value.clone(),
            None => empty_value(),
        };
        let scheme = match &request.scheme {
            Some(scheme) => scheme.as_str(),
            None => "httx",
        };
        let query = match &request.query {
            Some(query) => query.as_str(),
            None => "",
        };
        let mut fields: Vec<Field> = Vec::new();
        fields.push(field("component", text_value(self.component.as_str())));
        fields.push(field("method", text_value(request.method.as_str())));
        fields.push(field("uri", text_value(request.uri.as_str())));
        fields.push(field("version", FieldValue::Debug(request.version.text().to_owned())));
        fields.push(field("headers", FieldValue::Empty));
        fields.push(field("otel.kind", text_value("server")));
        fields.push(field("otel.status_code", FieldValue::Empty));
        fields.push(field("http.host", text_value(hostname.as_str())));
        fields.push(field("http.request.method", text_value(request.method.as_str())));
        fields.push(field("http.route", text_value(request.path.as_str())));
        fields.push(field("http.path_group", FieldValue::Empty));
        fields.push(field("http.response.status_code", FieldValue::Empty));
        fields.push(field("network.protocol.name", text_value(http_version.protocol)));
        fields.push(field("network.protocol.version", text_value(http_version.version)));
        fields.push(field("network.transport", text_value("tcp")));
        fields.push(field("server.address", text_value(hostname.as_str())));
        fields.push(field("server.port", FieldValue::Unsigned(port as u64)));
        fields.push(field("telemetry.sdk.language", text_value("rust")));
        fields.push(field("url.scheme", text_value(scheme)));
        fields.push(field("url.path", text_value(request.path.as_str())));
        fields.push(field("url.query", text_value(query)));
        fields.push(field("user_agent.original", FieldValue::Header(agent)));
        assert(field_views(fields@) =~= request_fields(self@.component, request@));
        Span::new("request", self.level, fields, propagated)
    }

    /// The span of a request. Where propagation is enabled, it runs on the
    /// request headers, and the span's parent is the context that it
    /// extracts, if that carries a span; where it is disabled, it does not
    /// run and the span has no parent, whatever the headers hold.
    pub fn make_span(&mut self, request: &RequestDescriptor) -> (span: Span)
        ensures
            *final(self) == *old(self),
            span@.name == "request"@,
            span@.level == old(self)@.level,
            span@.fields == request_fields(old(self)@.component, request@),
            span@.propagated is Some <==> old(self)@.propagate_context,
            span@.propagated matches Some(found) ==> found.has_span == carries_span(
                found.context,
            ),
            span@.parent() == extracted_parent(span@.propagated),
            !old(self)@.propagate_context ==> span@.parent() is None,
    {
        let propagated = if self.propagate_context {
            Some(propagate(&request.headers))
        } else {
            None
        };
        self.span_with(request, propagated)
    }
}

impl Default for MakeServerSpan {
    fn default() -> (make: Self)
        ensures
            make@ == default_make_span(),
    {
        Self::new()
    }
}

/// The headers of a request as the carrier that a propagator reads: values
/// by name, compared without regard to case, and the names present.
pub struct PropagationContext(HeaderMap<HeaderValue>);

impl View for PropagationContext {
    type V = Seq<(Seq<char>, Seq<u8>)>;

    closed spec fn view(&self) -> Seq<(Seq<char>, Seq<u8>)> {
        header_entries(self.0)
    }
}

impl PropagationContext {
    /// Wraps the headers of a request.
    pub fn new(header_map: HeaderMap<HeaderValue>) -> (context: Self)
        ensures
            context@ == header_entries(header_map),
    {
        Self(header_map)
    }

    /// The context that the globally registered propagator extracts from
    /// the headers.
    pub fn extract(&self) -> Context {
        extract(&self.0)
    }

    /// Runs propagation on the headers: extracts the context and asks it
    /// whether it carries a span. Which context comes back is for the
    /// registered propagator to say; what is found of it is true of it.
    pub fn propagate(&self) -> (found: Propagated)
        ensures
            found.has_span == carries_span(found.context),
            found.parent_context() == if carries_span(found.context) {
                Some(found.context)
            } else {
                None::<Context>
            },
    {
        propagate(&self.0)
    }

    /// The text of the first value under `key`; `None` where the headers
    /// have no such name or the value is not visible ASCII.
    pub fn get(&self, key: &str) -> (value: Option<&str>)
        ensures
            match value {
                Some(s) => first_text(self@, key@) == Some(s@),
                None => first_text(self@, key@) is None,
            },
    {
        text(&self.0, key)
    }

    /// The header names that are present, each once and in lower case.
    pub fn keys(&self) -> (keys: Vec<&str>)
        ensures
            keys@.len() == self@.len(),
            forall|i: int| 0 <= i < keys@.len() ==> (#[trigger] keys@[i])@ == self@[i].0,
            names_are_normal(self@),
    {
        listed_names(&self.0)
    }
}

} // verus!
