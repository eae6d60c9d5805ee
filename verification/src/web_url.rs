//! Parsed URLs as plain values.
//!
//! Parsing follows the WHATWG URL standard as implemented by the `url`
//! crate. The library does not restate that standard: what a parse yields is
//! named below, one name per function of the `url` crate that the library
//! reads, each applied to the text that was parsed.

use vstd::prelude::*;

verus! {

/// Whether `url::Url::parse` accepts `input` as an absolute URL.
pub uninterp spec fn url_parses(input: Seq<char>) -> bool;

/// `url::Url::as_str` of the URL parsed from `input`.
pub uninterp spec fn url_serialization(input: Seq<char>) -> Seq<char>;

/// `url::Url::scheme` of the URL parsed from `input`.
pub uninterp spec fn url_scheme(input: Seq<char>) -> Seq<char>;

/// `url::Url::host_str` of the URL parsed from `input`.
pub uninterp spec fn url_host_str(input: Seq<char>) -> Option<Seq<char>>;

/// `url::Url::port` of the URL parsed from `input` (`None` for an absent or
/// scheme-default port).
pub uninterp spec fn url_port(input: Seq<char>) -> Option<u16>;

/// `url::Url::origin` of the URL parsed from `input`: the (scheme, host,
/// port-or-known-default) tuple, or `None` for an opaque origin.
pub uninterp spec fn url_tuple_origin(input: Seq<char>) -> Option<(Seq<char>, Seq<char>, u16)>;

/// A tuple origin: scheme, serialized host, and port (the scheme's default
/// port when the URL names none).
#[derive(Debug, Clone, PartialEq, Eq)]
pub struct TupleOrigin {
    pub scheme: String,
    pub host: String,
    pub port: u16,
}

/// What the library reads of a parsed URL.
#[derive(Debug, Clone, PartialEq, Eq)]
pub struct WebUrl {
    /// The serialization (`Url::as_str`).
    pub href: String,
    /// The lower-case scheme without `:`.
    pub scheme: String,
    /// The serialized host, when the URL has one.
    pub host: Option<String>,
    /// The explicit, non-default port.
    pub port: Option<u16>,
    /// The tuple origin; `None` is an opaque origin, which equals no other.
    pub origin: Option<TupleOrigin>,
}

/// The mathematical model of a [`WebUrl`].
pub struct WebUrlView {
    pub href: Seq<char>,
    pub scheme: Seq<char>,
    pub host: Option<Seq<char>>,
    pub port: Option<u16>,
    pub origin: Option<(Seq<char>, Seq<char>, u16)>,
}

pub open spec fn opt_string_view(s: Option<String>) -> Option<Seq<char>> {
    match s {
        Some(s) => Some(s@),
        None => None,
    }
}

pub open spec fn origin_view(o: Option<TupleOrigin>) -> Option<(Seq<char>, Seq<char>, u16)> {
    match o {
        Some(o) => Some((o.scheme@, o.host@, o.port)),
        None => None,
    }
}

impl View for WebUrl {
    type V = WebUrlView;

    open spec fn view(&self) -> WebUrlView {
        WebUrlView {
            href: self.href@,
            scheme: self.scheme@,
            host: opt_string_view(self.host),
            port: self.port,
            origin: origin_view(self.origin),
        }
    }
}

pub open spec fn opt_url_view(u: Option<WebUrl>) -> Option<WebUrlView> {
    match u {
        Some(u) => Some(u@),
        None => None,
    }
}

/// The URL that `url::Url::parse` makes of `input`, if it accepts it.
pub open spec fn parsed_url(input: Seq<char>) -> Option<WebUrlView> {
    if url_parses(input) {
        Some(
            WebUrlView {
                href: url_serialization(input),
                scheme: url_scheme(input),
                host: url_host_str(input),
                port: url_port(input),
                origin: url_tuple_origin(input),
            },
        )
    } else {
        None
    }
}

/// Calls `url::Url::parse` and reads the result through `Url::as_str`,
/// `Url::scheme`, `Url::host_str`, `Url::port` and `Url::origin`. Claims
/// only that success and each value read are what the names above give for
/// `input`. A tuple origin's host is kept as its `Display` serialization,
/// which the `url` source writes as the domain, the dotted IPv4 address or
/// the bracketed IPv6 address, so that two hosts are equal exactly when
/// their serializations are.
#[verifier::external_body]
fn url_crate_parse(input: &str) -> (res: Option<WebUrl>)
    ensures
        res is Some <==> url_parses(input@),
        res matches Some(u) ==> u.href@ == url_serialization(input@),
        res matches Some(u) ==> u.scheme@ == url_scheme(input@),
        res matches Some(u) ==> opt_string_view(u.host) == url_host_str(input@),
        res matches Some(u) ==> u.port == url_port(input@),
        res matches Some(u) ==> origin_view(u.origin) == url_tuple_origin(input@),
{
    let url = match url::Url::parse(input) {
        Ok(url) => url,
        Err(_) => return None,
    };
    let origin = match url.origin() {
        url::Origin::Tuple(scheme, host, port) => Some(TupleOrigin { scheme, host: host.to_string(), port }),
        url::Origin::Opaque(_) => None,
    };
    let host = match url.host_str() {
        Some(host) => Some(host.to_string()),
        None => None,
    };
    Some(WebUrl { href: url.as_str().to_string(), scheme: url.scheme().to_string(), host, port: url.port(), origin })
}

impl WebUrl {
    /// Parses an absolute URL; `None` where `url::Url::parse` refuses it.
    pub fn parse(input: &str) -> (res: Option<WebUrl>)
        ensures
            opt_url_view(res) == parsed_url(input@),
    {
        url_crate_parse(input)
    }

    /// The serialization of the URL.
    pub fn as_str(&self) -> (res: &str)
        ensures
            res@ == self.href@,
    {
        self.href.as_str()
    }

    /// The scheme of the URL.
    pub fn scheme(&self) -> (res: &str)
        ensures
            res@ == self.scheme@,
    {
        self.scheme.as_str()
    }

    /// The serialized host, if any.
    pub fn host_str(&self) -> (res: Option<&str>)
        ensures
            res matches Some(h) ==> self.host matches Some(s) && h@ == s@,
            res is None <==> self.host is None,
    {
        match &self.host {
            Some(h) => Some(h.as_str()),
            None => None,
        }
    }

    /// The explicit, non-default port, if any.
    pub fn port(&self) -> (res: Option<u16>)
        ensures
            res == self.port,
    {
        self.port
    }
}

} // verus!
