//! Turns the text a user typed into a validated http or https target.

use vstd::prelude::*;

use crate::address::IpAddress;
use crate::error::{InvalidUrlError, TtfbError};

verus! {

/// Whether `s` holds the scheme separator `://` somewhere.
pub open spec fn has_scheme_separator(s: Seq<char>) -> bool {
    exists|i: int|
        0 <= i && i + 3 <= s.len() && #[trigger] s[i] == ':' && s[i + 1] == '/' && s[i + 2] == '/'
}

/// The input with the default scheme `http://` put in front, unless it
/// already names a scheme.
pub open spec fn with_default_scheme(s: Seq<char>) -> Seq<char> {
    if has_scheme_separator(s) {
        s
    } else {
        "http://"@ + s
    }
}

/// Whether `s` contains `://`.
fn contains_scheme_separator(s: &str) -> (r: bool)
    ensures
        r == has_scheme_separator(s@),
{
    let n = s.unicode_len();
    let mut i: usize = 0;
    while i < n && n - i >= 3
        invariant
            n == s@.len(),
            i <= n,
            forall|j: int|
                0 <= j < i && j + 3 <= n ==> !(#[trigger] s@[j] == ':' && s@[j + 1] == '/' && s@[j
                    + 2] == '/'),
        decreases n - i,
    {
        if s.get_char(i) == ':' && s.get_char(i + 1) == '/' && s.get_char(i + 2) == '/' {
            return true;
        }
        i = i + 1;
    }
    false
}

/// Puts the default scheme `http://` in front of the input unless it
/// already holds a scheme separator, whatever that scheme is.
pub fn prepend_default_scheme_if_necessary(url: String) -> (r: String)
    ensures
        r@ == with_default_scheme(url@),
{
    if contains_scheme_separator(url.as_str()) {
        url
    } else {
        String::from_str("http://").concat(url.as_str())
    }
}

/// What a URL parser found in a URL.
pub struct UrlView {
    pub scheme: Seq<char>,
    pub host: Option<Seq<char>>,
    pub ip: Option<IpAddress>,
    pub port: Option<u16>,
    pub path: Seq<char>,
}

/// The parts of a parsed URL that a measurement reads.
#[derive(Clone, Debug)]
pub struct ParsedUrl {
    /// The scheme, lower-cased, without `:`.
    pub scheme: String,
    /// The host as it stands in the URL (an IPv6 address in brackets).
    pub host: Option<String>,
    /// The address, when the host is an IP address.
    pub ip: Option<IpAddress>,
    /// The port, or the scheme's default port.
    pub port: Option<u16>,
    /// The path, `/` at least for http and https.
    pub path: String,
}

impl View for ParsedUrl {
    type V = UrlView;

    open spec fn view(&self) -> UrlView {
        UrlView {
            scheme: self.scheme@,
            host: match self.host {
                Some(h) => Some(h@),
                None => None,
            },
            ip: self.ip,
            port: self.port,
            path: self.path@,
        }
    }
}

/// What the WHATWG URL parser of the `url` crate makes of a text: the
/// parts of the URL, or the text of its diagnostic.
pub uninterp spec fn parsed_url_of(s: Seq<char>) -> Result<UrlView, Seq<char>>;

/// Relies on `url::Url::parse`, and on `scheme`, `host_str`, `host`,
/// `port_or_known_default` and `path` of the parsed URL, to split a URL into
/// its parts; a parse error is handed back as its display text.
#[verifier::external_body]
fn parse_url(input: &str) -> (r: Result<ParsedUrl, String>)
    ensures
        match r {
            Ok(u) => parsed_url_of(input@) == Ok::<UrlView, Seq<char>>(u@),
            Err(m) => parsed_url_of(input@) == Err::<UrlView, Seq<char>>(m@),
        },
{
    match url::Url::parse(input) {
        Ok(u) => Ok(ParsedUrl {
            scheme: u.scheme().to_string(),
            host: u.host_str().map(String::from),
            ip: match u.host() {
                Some(url::Host::Ipv4(a)) => Some(IpAddress::V4(u32::from(a))),
                Some(url::Host::Ipv6(a)) => Some(IpAddress::V6(u128::from(a))),
                Some(url::Host::Domain(_)) | None => None,
            },
            port: u.port_or_known_default(),
            path: u.path().to_string(),
        }),
        Err(e) => Err(e.to_string()),
    }
}

/// Parses the text as a URL; a malformed URL is a `WrongFormat` error
/// carrying the parser's diagnostic.
pub fn parse_input_as_url(input: &str) -> (r: Result<ParsedUrl, TtfbError>)
    ensures
        match parsed_url_of(input@) {
            Ok(u) => r matches Ok(p) && p@ == u,
            Err(m) => r matches Err(TtfbError::InvalidUrl(InvalidUrlError::WrongFormat(d))) && d@
                == m,
        },
{
    match parse_url(input) {
        Ok(u) => Ok(u),
        Err(m) => Err(TtfbError::InvalidUrl(InvalidUrlError::WrongFormat(m))),
    }
}

/// Whether a measurement supports the scheme.
pub open spec fn allowed_scheme(s: Seq<char>) -> bool {
    s == "http"@ || s == "https"@
}

/// Accepts the schemes `http` and `https`; any other is a `WrongScheme`
/// error carrying the scheme found.
pub fn check_scheme_is_allowed(url: &ParsedUrl) -> (r: Result<(), TtfbError>)
    ensures
        r is Ok <==> allowed_scheme(url.scheme@),
        r matches Err(e) ==> e matches TtfbError::InvalidUrl(InvalidUrlError::WrongScheme(s))
            && s@ == url.scheme@,
{
    if url.scheme == String::from_str("http") || url.scheme == String::from_str("https") {
        Ok(())
    } else {
        Err(TtfbError::InvalidUrl(InvalidUrlError::WrongScheme(url.scheme.clone())))
    }
}

/// The schemes a measurement supports.
#[derive(Clone, Copy, Debug, PartialEq, Eq, Structural, Hash)]
pub enum Scheme {
    /// Plain HTTP.
    Http,
    /// HTTP over TLS.
    Https,
}

/// What a [`NormalizedInput`] holds.
pub struct NormalizedView {
    pub scheme: Scheme,
    pub host: Seq<char>,
    pub ip: Option<IpAddress>,
    pub port: u16,
    pub path: Seq<char>,
}

/// A validated http or https URL: what a measurement needs of it.
#[derive(Clone, Debug)]
pub struct NormalizedInput {
    /// http or https.
    pub scheme: Scheme,
    /// The host as it stands in the URL: a domain or an IP address (an IPv6
    /// address in brackets). Sent as `Host` and used to verify a certificate.
    pub host: String,
    /// The address, when the host is an IP address and no lookup is needed.
    pub ip: Option<IpAddress>,
    /// The port to connect to.
    pub port: u16,
    /// The path to request.
    pub path: String,
}

impl View for NormalizedInput {
    type V = NormalizedView;

    open spec fn view(&self) -> NormalizedView {
        NormalizedView {
            scheme: self.scheme,
            host: self.host@,
            ip: self.ip,
            port: self.port,
            path: self.path@,
        }
    }
}

/// The validation of a parsed URL: a supported scheme, a host and a port
/// make a normalized input, else the matching error.
pub open spec fn validates_to(u: UrlView, r: Result<NormalizedInput, TtfbError>) -> bool {
    if !allowed_scheme(u.scheme) {
        r matches Err(TtfbError::InvalidUrl(InvalidUrlError::WrongScheme(s))) && s@ == u.scheme
    } else {
        match (u.host, u.port) {
            (Some(host), Some(port)) => r matches Ok(n) && n@ == (NormalizedView {
                scheme: if u.scheme == "https"@ {
                    Scheme::Https
                } else {
                    Scheme::Http
                },
                host,
                ip: u.ip,
                port,
                path: u.path,
            }),
            _ => r matches Err(e) && e == TtfbError::InvalidUrl(InvalidUrlError::Other),
        }
    }
}

impl NormalizedInput {
    /// Validates a parsed URL: its scheme must be http or https, and it must
    /// have a host and a port.
    pub fn from_url(url: ParsedUrl) -> (r: Result<NormalizedInput, TtfbError>)
        ensures
            validates_to(url@, r),
    {
        if let Err(e) = check_scheme_is_allowed(&url) {
            return Err(e);
        }
        let scheme = if url.scheme == String::from_str("https") {
            Scheme::Https
        } else {
            Scheme::Http
        };
        match (url.host, url.port) {
            (Some(host), Some(port)) => Ok(NormalizedInput { scheme, host, ip: url.ip, port, path: url.path }),
            _ => Err(TtfbError::InvalidUrl(InvalidUrlError::Other)),
        }
    }
}

/// Turns the user's text into a validated target: empty text is a
/// `MissingInput` error; otherwise `http://` is put in front unless a scheme
/// is given, and the result is parsed and validated.
pub fn normalize_input(input: &str) -> (r: Result<NormalizedInput, TtfbError>)
    ensures
        input@.len() == 0 ==> (r matches Err(e) && e == TtfbError::InvalidUrl(
            InvalidUrlError::MissingInput,
        )),
        input@.len() > 0 ==> match parsed_url_of(with_default_scheme(input@)) {
            Ok(u) => validates_to(u, r),
            Err(m) => r matches Err(TtfbError::InvalidUrl(InvalidUrlError::WrongFormat(d))) && d@
                == m,
        },
{
    if input.unicode_len() == 0 {
        return Err(TtfbError::InvalidUrl(InvalidUrlError::MissingInput));
    }
    let url = prepend_default_scheme_if_necessary(String::from_str(input));
    match parse_input_as_url(url.as_str()) {
        Ok(u) => NormalizedInput::from_url(u),
        Err(e) => Err(e),
    }
}

} // verus!
