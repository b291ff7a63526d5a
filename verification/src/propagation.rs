//! Extraction of the parent trace context from request headers, through the
//! text-map propagator that is registered globally with `opentelemetry`.
//!
//! The propagator reads a carrier: for each header name the text of its first
//! value, looked up without regard to ASCII case. A header whose value is not
//! visible ASCII has no text and is not carried.
//!
//! What the propagator hands back depends on the propagator that the process
//! has registered and on the context that is current on the calling thread.
//! The middleware keeps the context as it comes, in a [`Propagated`], beside
//! the one thing it asks of it: whether it carries a span.

use crate::headers::{
    ascii_lower, ascii_lower_is_idempotent, first_text, header_entries, listed_names,
    names_are_normal, text,
};
use crate::span::{index_of, index_of_is_first, lookup};
use hyper::header::{HeaderMap, HeaderValue};
use opentelemetry::trace::TraceContextExt;
use opentelemetry::Context;
use std::collections::HashMap;
use vstd::prelude::*;

verus! {

/// `opentelemetry::Context`, the trace context that a span is parented to,
/// taken as it is: the middleware carries a context and never looks inside.
#[verifier::external_type_specification]
#[verifier::external_body]
pub struct ExContext(Context);

/// The carrier made of the first `n` header names: each name that has a
/// text, with that text, in the order of the names.
pub open spec fn carrier_pairs(entries: Seq<(Seq<char>, Seq<u8>)>, n: int) -> Seq<
    (Seq<char>, Seq<char>),
>
    decreases n,
{
    if n <= 0 {
        Seq::empty()
    } else {
        let rest = carrier_pairs(entries, n - 1);
        match first_text(entries, entries[n - 1].0) {
            Some(value) => rest.push((entries[n - 1].0, value)),
            None => rest,
        }
    }
}

/// The carrier answers for each name it holds as the headers do: the value
/// beside a name is the text of the first header value under that name.
pub proof fn carrier_holds_texts(entries: Seq<(Seq<char>, Seq<u8>)>, n: int)
    requires
        n <= entries.len(),
    ensures
        carrier_pairs(entries, n).len() <= if n < 0 {
            0
        } else {
            n
        },
        forall|i: int|
            0 <= i < carrier_pairs(entries, n).len() ==> first_text(
                entries,
                (#[trigger] carrier_pairs(entries, n)[i]).0,
            ) == Some(carrier_pairs(entries, n)[i].1),
    decreases n,
{
    if n > 0 {
        carrier_holds_texts(entries, n - 1);
    }
}

/// What the carrier of the first `n` names holds under a name: the text of
/// that header, if the name is among the first `n` and the header has a text.
proof fn carrier_lookup(entries: Seq<(Seq<char>, Seq<u8>)>, n: int, name: Seq<char>)
    requires
        0 <= n <= entries.len(),
        names_are_normal(entries),
    ensures
        lookup(carrier_pairs(entries, n), name) == match index_of(entries.take(n), name) {
            Some(i) => first_text(entries, name),
            None => None,
        },
    decreases n,
{
    let pairs = carrier_pairs(entries, n);
    if n > 0 {
        let rest = carrier_pairs(entries, n - 1);
        let last = entries[n - 1].0;
        carrier_lookup(entries, n - 1, name);
        assert(entries.take(n).drop_last() =~= entries.take(n - 1));
        assert(entries.take(n).last() == entries[n - 1]);
        index_of_is_first(entries.take(n - 1), name);
        index_of_is_first(entries.take(n), name);
        index_of_is_first(rest, name);
        match first_text(entries, last) {
            Some(value) => {
                assert(pairs == rest.push((last, value)));
                assert(pairs.drop_last() =~= rest);
                assert(pairs.last() == (last, value));
                if index_of(entries.take(n - 1), name) is None && last == name {
                    assert(index_of(rest, name) is None);
                }
            },
            None => {
                assert(pairs == rest);
            },
        }
    }
}

/// The carrier answers as the headers do. Where the names of the headers are
/// in lower case and distinct, as those of a header map are, looking a key
/// up in the carrier by its lower-case form finds the text that the headers
/// hold under the key, and nothing where they hold none.
pub proof fn carrier_answers_as_headers(entries: Seq<(Seq<char>, Seq<u8>)>, key: Seq<char>)
    requires
        names_are_normal(entries),
    ensures
        lookup(carrier_pairs(entries, entries.len() as int), ascii_lower(key)) == first_text(
            entries,
            key,
        ),
{
    let name = ascii_lower(key);
    carrier_lookup(entries, entries.len() as int, name);
    assert(entries.take(entries.len() as int) =~= entries);
    ascii_lower_is_idempotent(key);
}

/// Views of a list of pairs of strings, in order.
pub open spec fn pair_views(pairs: Seq<(String, String)>) -> Seq<(Seq<char>, Seq<char>)> {
    pairs.map_values(|p: (String, String)| (p.0@, p.1@))
}

/// The carrier that a propagator reads for a header map. It answers as the
/// headers do: looking a key up in it by the key's lower-case form finds
/// the text that the headers hold under the key, and nothing where they
/// hold none.
pub fn carrier(map: &HeaderMap<HeaderValue>) -> (pairs: Vec<(String, String)>)
    ensures
        pair_views(pairs@) == carrier_pairs(
            header_entries(*map),
            header_entries(*map).len() as int,
        ),
        names_are_normal(header_entries(*map)),
        forall|key: Seq<char>|
            lookup(pair_views(pairs@), ascii_lower(key)) == #[trigger] first_text(
                header_entries(*map),
                key,
            ),
{
    let keys = listed_names(map);
    proof {
        let entries = header_entries(*map);
        assert forall|key: Seq<char>|
            lookup(carrier_pairs(entries, entries.len() as int), ascii_lower(key))
                == #[trigger] first_text(entries, key) by {
            carrier_answers_as_headers(entries, key);
        }
    }
    let mut pairs: Vec<(String, String)> = Vec::new();
    let mut i: usize = 0;
    while i < keys.len()
        invariant
            i <= keys.len(),
            keys@.len() == header_entries(*map).len(),
            forall|j: int|
                0 <= j < keys@.len() ==> (#[trigger] keys@[j])@ == header_entries(*map)[j].0,
            pair_views(pairs@) =~= carrier_pairs(header_entries(*map), i as int),
        decreases keys.len() - i,
    {
        let key: &str = keys[i];
        match text(map, key) {
            Some(value) => {
                let ghost before = pair_views(pairs@);
                pairs.push((key.to_owned(), value.to_owned()));
                assert(pair_views(pairs@) =~= before.push((key@, value@)));
            },
            None => {},
        }
        i += 1;
    }
    pairs
}

/// `opentelemetry::global::get_text_map_propagator`, handing the carrier to
/// `TextMapPropagator::extract`. What comes back depends on the propagator
/// that the process has registered and on the context that is current on the
/// calling thread, so nothing is claimed of it.
#[verifier::external_body]
pub(crate) fn extract_global(pairs: &Vec<(String, String)>) -> Context {
    let carrier: HashMap<String, String> = pairs.iter().cloned().collect();
    opentelemetry::global::get_text_map_propagator(|propagator| propagator.extract(&carrier))
}

/// Whether a context holds a span among the values it carries, as
/// `TraceContextExt::has_active_span` tells. A context never changes, so
/// the answer belongs to the context.
pub uninterp spec fn carries_span(context: Context) -> bool;

/// `TraceContextExt::has_active_span`: whether a context carries a span.
#[verifier::external_body]
pub(crate) fn has_active_span(context: &Context) -> (active: bool)
    ensures
        active == carries_span(*context),
{
    context.has_active_span()
}

/// The context that the globally registered propagator extracts from the
/// headers. Extraction never fails: without usable trace headers the
/// propagator hands back the current context.
pub fn extract(map: &HeaderMap<HeaderValue>) -> Context {
    let pairs = carrier(map);
    extract_global(&pairs)
}

/// What propagation found for a request: the extracted context, and whether
/// it carries a span.
#[derive(Debug)]
pub struct Propagated {
    /// The context that the propagator extracted.
    pub context: Context,
    /// Whether the context carries a span, which is then the parent of the
    /// request's span.
    pub has_span: bool,
}

/// The parent that a span takes from propagation: the extracted context
/// where propagation ran and that context carries a span, none otherwise.
pub open spec fn extracted_parent(propagated: Option<Propagated>) -> Option<Context> {
    match propagated {
        Some(found) => if carries_span(found.context) {
            Some(found.context)
        } else {
            None
        },
        None => None,
    }
}

impl Propagated {
    /// The parent that propagation gives a span: the extracted context
    /// where it carries a span, none otherwise.
    pub open spec fn parent_context(self) -> Option<Context> {
        if self.has_span {
            Some(self.context)
        } else {
            None
        }
    }

    /// Puts an extracted context beside what is known of it.
    pub fn new(context: Context, has_span: bool) -> (propagated: Self)
        ensures
            propagated == (Propagated { context, has_span }),
    {
        Propagated { context, has_span }
    }

    /// The parent that propagation gives a span: the extracted context
    /// where it carries a span, none otherwise.
    pub fn parent(&self) -> (parent: Option<&Context>)
        ensures
            parent == match self.parent_context() {
                Some(context) => Some(&context),
                None => None,
            },
    {
        if self.has_span {
            Some(&self.context)
        } else {
            None
        }
    }
}

/// Runs propagation on the headers of a request: extracts the context and
/// asks it whether it carries a span. Which context comes back is for the
/// registered propagator to say; what is found of it is true of it.
pub fn propagate(map: &HeaderMap<HeaderValue>) -> (found: Propagated)
    ensures
        found.has_span == carries_span(found.context),
        found.parent_context() == if carries_span(found.context) {
            Some(found.context)
        } else {
            None::<Context>
        },
{
    let context = extract(map);
    let has_span = has_active_span(&context);
    Propagated::new(context, has_span)
}

} // verus!
