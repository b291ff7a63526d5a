//! Protocol versions and the labels that spans carry for them.

use vstd::prelude::*;
use vstd::std_specs::convert::FromSpecImpl;

verus! {

/// A version of the HTTP protocol, as the transport reports it.
#[derive(Clone, Copy, Debug, PartialEq, Eq, Structural)]
pub enum Version {
    /// HTTP/0.9
    Http09,
    /// HTTP/1.0
    Http10,
    /// HTTP/1.1
    Http11,
    /// HTTP/2
    Http2,
    /// HTTP/3
    Http3,
    /// A version that this crate does not know.
    Other,
}

/// The network protocol name and version that a span carries.
#[derive(Clone, Copy, Debug, PartialEq, Eq)]
pub struct HttpVersion {
    /// The name of the protocol.
    pub protocol: &'static str,
    /// The version of the protocol.
    pub version: &'static str,
}

/// The version label of a protocol version; `unknown` for a version that is
/// not known.
pub open spec fn version_label(version: Version) -> &'static str {
    match version {
        Version::Http09 => "0.9",
        Version::Http10 => "1.0",
        Version::Http11 => "1.1",
        Version::Http2 => "2",
        Version::Http3 => "3",
        Version::Other => "unknown",
    }
}

/// A protocol version in the form in which a request line shows it.
pub open spec fn version_text(version: Version) -> &'static str {
    match version {
        Version::Http09 => "HTTP/0.9",
        Version::Http10 => "HTTP/1.0",
        Version::Http11 => "HTTP/1.1",
        Version::Http2 => "HTTP/2.0",
        Version::Http3 => "HTTP/3.0",
        Version::Other => "unknown",
    }
}

impl Version {
    /// The version in the form in which a request line shows it, such as
    /// `HTTP/1.1`.
    pub fn text(self) -> (text: &'static str)
        ensures
            text == version_text(self),
    {
        match self {
            Version::Http09 => "HTTP/0.9",
            Version::Http10 => "HTTP/1.0",
            Version::Http11 => "HTTP/1.1",
            Version::Http2 => "HTTP/2.0",
            Version::Http3 => "HTTP/3.0",
            Version::Other => "unknown",
        }
    }
}

/// The labels of a protocol version: the protocol is always `HTTP`.
pub open spec fn http_version(version: Version) -> HttpVersion {
    HttpVersion { protocol: "HTTP", version: version_label(version) }
}

impl From<Version> for HttpVersion {
    fn from(version: Version) -> (label: HttpVersion) {
        let protocol = "HTTP";
        match version {
            Version::Http09 => HttpVersion { protocol, version: "0.9" },
            Version::Http10 => HttpVersion { protocol, version: "1.0" },
            Version::Http11 => HttpVersion { protocol, version: "1.1" },
            Version::Http2 => HttpVersion { protocol, version: "2" },
            Version::Http3 => HttpVersion { protocol, version: "3" },
            Version::Other => HttpVersion { protocol, version: "unknown" },
        }
    }
}

impl FromSpecImpl<Version> for HttpVersion {
    open spec fn obeys_from_spec() -> bool {
        true
    }

    open spec fn from_spec(version: Version) -> HttpVersion {
        http_version(version)
    }
}

/// The table of labels: every known version is labelled `HTTP` with its own
/// number, and a version that is not known is labelled `HTTP`, `unknown`.
pub proof fn labels_match_table(version: Version)
    ensures
        http_version(version).protocol@ == "HTTP"@,
        version == Version::Http09 ==> http_version(version).version@ == "0.9"@,
        version == Version::Http10 ==> http_version(version).version@ == "1.0"@,
        version == Version::Http11 ==> http_version(version).version@ == "1.1"@,
        version == Version::Http2 ==> http_version(version).version@ == "2"@,
        version == Version::Http3 ==> http_version(version).version@ == "3"@,
        version == Version::Other ==> http_version(version).version@ == "unknown"@,
{
}

} // verus!
