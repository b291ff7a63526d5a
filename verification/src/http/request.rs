//! What the middleware reads of a request, and the server address that it
//! derives from it.

use crate::headers::{
    as_chars, first, first_value, header_entries, is_visible_text, text_of, value_text,
};
use crate::http::http::Version;
use crate::text::{parse_u16, parsed_u16};
use hyper::header::{HeaderMap, HeaderValue};
use vstd::prelude::*;
use vstd::string::*;

verus! {

/// The parts of a request that span fields are made of.
#[derive(Debug)]
pub struct RequestDescriptor {
    /// The request method, such as `GET`.
    pub method: String,
    /// The full request target.
    pub uri: String,
    /// The scheme of the target, where it has one.
    pub scheme: Option<String>,
    /// The host of the target's authority, where it has one.
    pub host: Option<String>,
    /// The port of the target's authority, where it has one.
    pub port: Option<u16>,
    /// The path of the target.
    pub path: String,
    /// The query of the target, where it has one.
    pub query: Option<String>,
    /// The protocol version.
    pub version: Version,
    /// The request headers.
    pub headers: HeaderMap<HeaderValue>,
}

/// Mathematical model of a [`RequestDescriptor`].
pub struct RequestView {
    pub method: Seq<char>,
    pub uri: Seq<char>,
    pub scheme: Option<Seq<char>>,
    pub host: Option<Seq<char>>,
    pub port: Option<u16>,
    pub path: Seq<char>,
    pub query: Option<Seq<char>>,
    pub version: Version,
    pub headers: Seq<(Seq<char>, Seq<u8>)>,
}

/// The characters of an optional string.
pub open spec fn opt_view(text: Option<String>) -> Option<Seq<char>> {
    match text {
        Some(s) => Some(s@),
        None => None,
    }
}

impl View for RequestDescriptor {
    type V = RequestView;

    open spec fn view(&self) -> RequestView {
        RequestView {
            method: self.method@,
            uri: self.uri@,
            scheme: opt_view(self.scheme),
            host: opt_view(self.host),
            port: self.port,
            path: self.path@,
            query: opt_view(self.query),
            version: self.version,
            headers: header_entries(self.headers),
        }
    }
}

/// Index of the first `:` at or after `from`; the length of the text where
/// there is none.
pub open spec fn find_colon(s: Seq<char>, from: int) -> int
    decreases s.len() - from,
{
    if from >= s.len() {
        s.len() as int
    } else if s[from] == ':' {
        from
    } else {
        find_colon(s, from + 1)
    }
}

/// What stands before the first `:` of a text; the whole text where it has
/// none.
pub open spec fn host_segment(s: Seq<char>) -> Seq<char> {
    s.subrange(0, find_colon(s, 0))
}

/// What stands between the first `:` of a text and the second, or the end
/// of the text; nothing where the text has no `:`.
pub open spec fn port_segment(s: Seq<char>) -> Option<Seq<char>> {
    let colon = find_colon(s, 0);
    if colon >= s.len() {
        None
    } else {
        Some(s.subrange(colon + 1, find_colon(s, colon + 1)))
    }
}

/// The port that a `Host` text names: the number after its first `:`, and
/// 80 where there is none or it does not parse.
pub open spec fn header_port(s: Seq<char>) -> u16 {
    match port_segment(s) {
        Some(segment) => match parsed_u16(segment) {
            Some(port) => port,
            None => 80,
        },
        None => 80,
    }
}

/// Host name and port of the server that a request addresses, by priority:
/// the authority of the request target, with port 80 where it names none;
/// else the `Host` header, split at `:`, read as `unknown:80` where it is not
/// visible ASCII; else `unknown` and port 0.
pub open spec fn server_address(
    host: Option<Seq<char>>,
    port: Option<u16>,
    host_header: Option<Seq<u8>>,
) -> (Seq<char>, u16) {
    match host {
        Some(name) => (
            name,
            match port {
                Some(p) => p,
                None => 80,
            },
        ),
        None => match host_header {
            Some(bytes) => {
                let text = match text_of(bytes) {
                    Some(t) => t,
                    None => "unknown:80"@,
                };
                (host_segment(text), header_port(text))
            },
            None => ("unknown"@, 0),
        },
    }
}

/// The position where `find_colon` lands: no `:` stands between `from` and
/// it, and it is the end of the text or holds a `:`.
pub proof fn find_colon_is_first(s: Seq<char>, from: int)
    requires
        0 <= from <= s.len(),
    ensures
        from <= find_colon(s, from) <= s.len(),
        forall|i: int| from <= i < find_colon(s, from) ==> s[i] != ':',
        find_colon(s, from) < s.len() ==> s[find_colon(s, from)] == ':',
    decreases s.len() - from,
{
    if from < s.len() && s[from] != ':' {
        find_colon_is_first(s, from + 1);
    }
}

/// A request that names no authority and carries a `Host` header of visible
/// ASCII is addressed to what that header names: the host is what stands
/// before the header's first `:`, the port is the number that stands after
/// it, and 80 where the header has no `:` or no number follows it.
pub proof fn host_header_names_address(port: Option<u16>, value: Seq<u8>)
    requires
        is_visible_text(value),
    ensures
        ({
            let text = as_chars(value);
            let colon = find_colon(text, 0);
            let address = server_address(None, port, Some(value));
            &&& 0 <= colon <= text.len()
            &&& forall|i: int| 0 <= i < colon ==> text[i] != ':'
            &&& address.0 == text.subrange(0, colon)
            &&& colon == text.len() ==> address.1 == 80
            &&& colon < text.len() ==> {
                let after = text.subrange(colon + 1, find_colon(text, colon + 1));
                &&& text[colon] == ':'
                &&& forall|i: int| 0 <= i < after.len() ==> after[i] != ':'
                &&& parsed_u16(after) is Some ==> Some(address.1) == parsed_u16(after)
                &&& parsed_u16(after) is None ==> address.1 == 80
            }
        }),
{
    let text = as_chars(value);
    find_colon_is_first(text, 0);
    let colon = find_colon(text, 0);
    if colon < text.len() {
        find_colon_is_first(text, colon + 1);
    }
}

/// A request that names no authority and carries no `Host` header is
/// addressed to `unknown`, port 0.
pub proof fn missing_host_is_unknown(port: Option<u16>)
    ensures
        server_address(None, port, None) == ("unknown"@, 0u16),
{
}

/// A request that names an authority is addressed to it, whatever its `Host`
/// header holds, with port 80 where the authority names none.
pub proof fn authority_comes_first(
    host: Seq<char>,
    port: Option<u16>,
    host_header: Option<Seq<u8>>,
)
    ensures
        server_address(Some(host), port, host_header).0 == host,
        port is Some ==> Some(server_address(Some(host), port, host_header).1) == port,
        port is None ==> server_address(Some(host), port, host_header).1 == 80,
{
}

#[verifier::loop_isolation(false)]
fn colon_index(text: &str, from: usize) -> (at: usize)
    requires
        text.is_ascii(),
        from <= text@.len(),
    ensures
        at == find_colon(text@, from as int),
        from <= at <= text@.len(),
{
    let bytes = text.as_bytes();
    proof {
        is_ascii_spec_bytes(text);
    }
    let mut i = from;
    while i < bytes.len()
        invariant
            from <= i <= bytes.len(),
            find_colon(text@, from as int) == find_colon(text@, i as int),
        decreases bytes.len() - i,
    {
        if bytes[i] == 58u8 {
            assert(text@[i as int] == ':');
            return i;
        }
        assert(text@[i as int] != ':');
        i += 1;
    }
    i
}

/// Splits the text of a `Host` header into host name and port.
fn split_host(text: &str) -> (address: (String, u16))
    requires
        text.is_ascii(),
    ensures
        address.0@ == host_segment(text@),
        address.1 == header_port(text@),
{
    proof {
        is_ascii_spec_bytes(text);
    }
    let length = text.as_bytes().len();
    let colon = colon_index(text, 0);
    let host = text.substring_ascii(0, colon).to_owned();
    if colon >= length {
        return (host, 80);
    }
    let end = colon_index(text, colon + 1);
    let segment = text.substring_ascii(colon + 1, end);
    let port = match parse_u16(segment) {
        Some(port) => port,
        None => 80,
    };
    (host, port)
}

impl RequestDescriptor {
    /// Host name and port of the server that the request addresses.
    pub fn server_address(&self) -> (address: (String, u16))
        ensures
            (address.0@, address.1) == server_address(
                self@.host,
                self@.port,
                first_value(self@.headers, "host"@),
            ),
    {
        match &self.host {
            Some(name) => {
                let port = match self.port {
                    Some(p) => p,
                    None => 80,
                };
                (name.clone(), port)
            },
            None => match first(&self.headers, "host") {
                Some(value) => {
                    let text = match value_text(value) {
                        Some(t) => t,
                        None => "unknown:80",
                    };
                    proof {
                        reveal_strlit("unknown:80");
                    }
                    split_host(text)
                },
                None => ("unknown".to_owned(), 0),
            },
        }
    }
}

} // verus!
