//! The span that the middleware describes: a name, a severity, the declared
//! fields with their values, and the parent context.

use crate::headers::value_bytes;
use crate::http::server_on_response::OpenTelemetryStatusCode;
use crate::text::str_eq;
use hyper::header::HeaderValue;
use crate::propagation::Propagated;
use opentelemetry::Context;
use vstd::prelude::*;

verus! {

/// Severity of a span or of an event, from the most verbose to the most severe.
#[derive(Clone, Copy, Debug, PartialEq, Eq, Structural)]
pub enum Level {
    /// Very detailed information.
    Trace,
    /// Information for debugging.
    Debug,
    /// Information about the normal course of things.
    Info,
    /// A hazard.
    Warn,
    /// A failure.
    Error,
}

/// The value of a span field.
#[derive(Clone, Debug, PartialEq, Eq)]
pub enum FieldValue {
    /// Declared, nothing recorded yet.
    Empty,
    /// A string, or a value recorded through its display form.
    Text(String),
    /// An unsigned number.
    Unsigned(u64),
    /// A value recorded through its debug form, held as that text.
    Debug(String),
    /// The status of a completed call, shown by a backend as `OK` or `ERROR`.
    Status(OpenTelemetryStatusCode),
    /// A header value, shown by a backend in its debug form.
    Header(HeaderValue),
}

/// Mathematical model of a [`FieldValue`].
pub enum FieldView {
    Empty,
    Text(Seq<char>),
    Unsigned(u64),
    Debug(Seq<char>),
    Status(OpenTelemetryStatusCode),
    Header(Seq<u8>),
}

impl View for FieldValue {
    type V = FieldView;

    open spec fn view(&self) -> FieldView {
        match self {
            FieldValue::Empty => FieldView::Empty,
            FieldValue::Text(s) => FieldView::Text(s@),
            FieldValue::Unsigned(n) => FieldView::Unsigned(*n),
            FieldValue::Debug(s) => FieldView::Debug(s@),
            FieldValue::Status(status) => FieldView::Status(*status),
            FieldValue::Header(v) => FieldView::Header(value_bytes(*v)),
        }
    }
}

/// A named field of a span.
#[derive(Clone, Debug, PartialEq, Eq)]
pub struct Field {
    /// The name of the field.
    pub name: String,
    /// The value that the field holds.
    pub value: FieldValue,
}

impl View for Field {
    type V = (Seq<char>, FieldView);

    open spec fn view(&self) -> (Seq<char>, FieldView) {
        (self.name@, self.value@)
    }
}

/// Index of the first entry with the given name.
pub open spec fn index_of<V>(entries: Seq<(Seq<char>, V)>, name: Seq<char>) -> Option<int>
    decreases entries.len(),
{
    if entries.len() == 0 {
        None
    } else {
        match index_of(entries.drop_last(), name) {
            Some(i) => Some(i),
            None => if entries.last().0 == name {
                Some(entries.len() - 1)
            } else {
                None
            },
        }
    }
}

/// Value of the first entry with the given name.
pub open spec fn lookup<V>(entries: Seq<(Seq<char>, V)>, name: Seq<char>) -> Option<V> {
    match index_of(entries, name) {
        Some(i) => Some(entries[i].1),
        None => None,
    }
}

/// `index_of` finds the least index that holds the name, if any does.
pub proof fn index_of_is_first<V>(entries: Seq<(Seq<char>, V)>, name: Seq<char>)
    ensures
        match index_of(entries, name) {
            Some(i) => {
                &&& 0 <= i < entries.len()
                &&& entries[i].0 == name
                &&& forall|j: int| 0 <= j < i ==> entries[j].0 != name
            },
            None => forall|j: int| 0 <= j < entries.len() ==> entries[j].0 != name,
        },
    decreases entries.len(),
{
    if entries.len() > 0 {
        let front = entries.drop_last();
        index_of_is_first(front, name);
        assert(forall|j: int| 0 <= j < front.len() ==> front[j] == entries[j]);
        match index_of(front, name) {
            Some(i) => {
                assert(front[i] == entries[i]);
            },
            None => {
                assert forall|j: int| 0 <= j < entries.len() - 1 implies entries[j].0 != name by {
                    assert(front[j] == entries[j]);
                }
            },
        }
    }
}

/// What `index_of` returns for a name that first occurs at `i`.
pub proof fn index_of_found<V>(entries: Seq<(Seq<char>, V)>, name: Seq<char>, i: int)
    requires
        0 <= i < entries.len(),
        entries[i].0 == name,
        forall|j: int| 0 <= j < i ==> entries[j].0 != name,
    ensures
        index_of(entries, name) == Some(i),
{
    index_of_is_first(entries, name);
}

/// What `index_of` returns for a name that does not occur.
pub proof fn index_of_absent<V>(entries: Seq<(Seq<char>, V)>, name: Seq<char>)
    requires
        forall|j: int| 0 <= j < entries.len() ==> entries[j].0 != name,
    ensures
        index_of(entries, name) is None,
{
    index_of_is_first(entries, name);
}

/// The entries after a value was recorded under a name: the first entry with
/// that name takes the value; without such an entry nothing changes.
pub open spec fn record_entry<V>(entries: Seq<(Seq<char>, V)>, name: Seq<char>, value: V) -> Seq<
    (Seq<char>, V),
> {
    match index_of(entries, name) {
        Some(i) => entries.update(i, (name, value)),
        None => entries,
    }
}

/// Where a name first occurs depends on the names alone, not on the values.
pub proof fn index_of_by_names<V, W>(
    a: Seq<(Seq<char>, V)>,
    b: Seq<(Seq<char>, W)>,
    name: Seq<char>,
)
    requires
        a.len() == b.len(),
        forall|i: int| 0 <= i < a.len() ==> a[i].0 == b[i].0,
    ensures
        index_of(a, name) == index_of(b, name),
{
    index_of_is_first(a, name);
    index_of_is_first(b, name);
    match index_of(a, name) {
        Some(i) => {
            index_of_found(b, name, i);
        },
        None => {
            index_of_absent(b, name);
        },
    }
}

/// Recording declares nothing and renames nothing: the entries keep their
/// number and their names, and every entry but the one that takes the value
/// stays as it was.
pub proof fn record_keeps_names<V>(entries: Seq<(Seq<char>, V)>, name: Seq<char>, value: V)
    ensures
        record_entry(entries, name, value).len() == entries.len(),
        forall|i: int|
            0 <= i < entries.len() ==> (#[trigger] record_entry(entries, name, value)[i]).0
                == entries[i].0,
        forall|i: int|
            0 <= i < entries.len() && index_of(entries, name) != Some(i) ==> (
            #[trigger] record_entry(entries, name, value)[i]) == entries[i],
{
    index_of_is_first(entries, name);
}

/// What a name holds after a value was recorded: under the recorded name
/// that value, if the name is declared; under any other name what it held.
pub proof fn record_then_lookup<V>(
    entries: Seq<(Seq<char>, V)>,
    name: Seq<char>,
    value: V,
    other: Seq<char>,
)
    ensures
        lookup(record_entry(entries, name, value), other) == if other == name && index_of(
            entries,
            name,
        ) is Some {
            Some(value)
        } else {
            lookup(entries, other)
        },
{
    let after = record_entry(entries, name, value);
    record_keeps_names(entries, name, value);
    index_of_by_names(after, entries, other);
    index_of_is_first(entries, name);
    index_of_is_first(entries, other);
}

/// A span: created with its name, severity and declared fields, and with
/// what propagation found for its request, where propagation ran. Values
/// can be recorded on declared fields only.
#[derive(Debug)]
pub struct Span {
    name: String,
    level: Level,
    fields: Vec<Field>,
    propagated: Option<Propagated>,
}

/// Mathematical model of a [`Span`].
pub struct SpanView {
    pub name: Seq<char>,
    pub level: Level,
    pub fields: Seq<(Seq<char>, FieldView)>,
    pub propagated: Option<Propagated>,
}

impl SpanView {
    /// The parent context of the span: the context that propagation
    /// extracted, where it ran and the context carries a span.
    pub open spec fn parent(self) -> Option<Context> {
        match self.propagated {
            Some(propagated) => propagated.parent_context(),
            None => None,
        }
    }

    /// Value of the field with the given name, if the span declares it.
    pub open spec fn field(self, name: Seq<char>) -> Option<FieldView> {
        lookup(self.fields, name)
    }

    /// The span after `value` was recorded under `name`.
    pub open spec fn record(self, name: Seq<char>, value: FieldView) -> SpanView {
        SpanView { fields: record_entry(self.fields, name, value), ..self }
    }

    /// The span after the given values were recorded, one after the other.
    pub open spec fn record_all(self, writes: Seq<(Seq<char>, FieldView)>) -> SpanView
        decreases writes.len(),
    {
        if writes.len() == 0 {
            self
        } else {
            self.record(writes[0].0, writes[0].1).record_all(writes.drop_first())
        }
    }
}

/// A span for whose request propagation did not run has no parent. A span
/// for whose request it ran has the extracted context for its parent where
/// that context carries a span, and no parent where it carries none.
pub proof fn parent_is_the_extracted_context(span: SpanView)
    ensures
        span.propagated is None ==> span.parent() is None,
        span.propagated matches Some(found) ==> {
            &&& found.has_span ==> span.parent() == Some(found.context)
            &&& !found.has_span ==> span.parent() is None
        },
{
}

/// Views of a list of fields, in order.
pub open spec fn field_views(fields: Seq<Field>) -> Seq<(Seq<char>, FieldView)> {
    fields.map_values(|f: Field| f@)
}

impl View for Span {
    type V = SpanView;

    closed spec fn view(&self) -> SpanView {
        SpanView {
            name: self.name@,
            level: self.level,
            fields: field_views(self.fields@),
            propagated: self.propagated,
        }
    }
}

impl Span {
    /// Creates a span with the given name, severity and declared fields,
    /// and with what propagation found, where it ran.
    pub fn new(
        name: &str,
        level: Level,
        fields: Vec<Field>,
        propagated: Option<Propagated>,
    ) -> (span: Span)
        ensures
            span@ == (SpanView { name: name@, level, fields: field_views(fields@), propagated }),
    {
        Span { name: name.to_owned(), level, fields, propagated }
    }

    /// The span's name.
    pub fn name(&self) -> (name: &str)
        ensures
            name@ == self@.name,
    {
        self.name.as_str()
    }

    /// The span's severity.
    pub fn level(&self) -> (level: Level)
        ensures
            level == self@.level,
    {
        self.level
    }

    /// The declared fields with their current values, in declaration order.
    pub fn fields(&self) -> (fields: &Vec<Field>)
        ensures
            field_views(fields@) == self@.fields,
    {
        &self.fields
    }

    /// What propagation found for the span's request; `None` where
    /// propagation did not run.
    pub fn propagated(&self) -> (propagated: Option<&Propagated>)
        ensures
            propagated == match self@.propagated {
                Some(found) => Some(&found),
                None => None,
            },
    {
        self.propagated.as_ref()
    }

    /// The parent context, if the span has one.
    pub fn parent(&self) -> (parent: Option<&Context>)
        ensures
            parent == match self@.parent() {
                Some(context) => Some(&context),
                None => None,
            },
    {
        match &self.propagated {
            Some(propagated) => propagated.parent(),
            None => None,
        }
    }

    /// Whether the span has a parent context.
    pub fn has_parent(&self) -> (has: bool)
        ensures
            has == self@.parent() is Some,
    {
        match &self.propagated {
            Some(propagated) => propagated.has_span,
            None => false,
        }
    }

    /// The current value of the field with the given name; `None` if the
    /// span does not declare it.
    pub fn field(&self, name: &str) -> (value: Option<&FieldValue>)
        ensures
            match value {
                Some(v) => self@.field(name@) == Some(v@),
                None => self@.field(name@) is None,
            },
    {
        let mut i: usize = 0;
        while i < self.fields.len()
            invariant
                i <= self.fields.len(),
                forall|j: int| 0 <= j < i ==> self.fields@[j].name@ != name@,
            decreases self.fields.len() - i,
        {
            if str_eq(self.fields[i].name.as_str(), name) {
                proof {
                    index_of_found(field_views(self.fields@), name@, i as int);
                }
                return Some(&self.fields[i].value);
            }
            i += 1;
        }
        proof {
            index_of_absent(field_views(self.fields@), name@);
        }
        None
    }

    /// Records `value` under `name`. A span takes values only for the fields
    /// it was created with: for any other name the call changes nothing.
    pub fn record(&mut self, name: &str, value: FieldValue)
        ensures
            final(self)@ == old(self)@.record(name@, value@),
    {
        let mut i: usize = 0;
        while i < self.fields.len()
            invariant
                i <= self.fields.len(),
                *self == *old(self),
                forall|j: int| 0 <= j < i ==> self.fields@[j].name@ != name@,
            decreases self.fields.len() - i,
        {
            if str_eq(self.fields[i].name.as_str(), name) {
                proof {
                    index_of_found(field_views(self.fields@), name@, i as int);
                }
                let field = Field { name: name.to_owned(), value };
                self.fields.set(i, field);
                assert(field_views(self.fields@) =~= field_views(old(self).fields@).update(
                    i as int,
                    (name@, value@),
                ));
                return ;
            }
            i += 1;
        }
        proof {
            index_of_absent(field_views(self.fields@), name@);
        }
    }

    /// Records the given values, one after the other.
    pub fn record_all(&mut self, writes: Vec<Field>)
        ensures
            final(self)@ == old(self)@.record_all(field_views(writes@)),
    {
        let mut rest = writes;
        while rest.len() > 0
            invariant
                self@.record_all(field_views(rest@)) == old(self)@.record_all(field_views(writes@)),
            decreases rest.len(),
        {
            let ghost before = field_views(rest@);
            let write = rest.remove(0);
            assert(field_views(rest@) =~= before.drop_first());
            assert(before[0] == write@);
            self.record(write.name.as_str(), write.value);
        }
    }
}

} // verus!
