//! The error taxonomy of a measurement.

use vstd::prelude::*;

verus! {

/// A failure of the network or of an outside service, as its driver
/// reported it: a category (an I/O error kind, a resolver error kind) and
/// a human-readable message.
#[derive(Clone, Debug, Hash)]
pub struct Failure {
    pub kind: String,
    pub message: String,
}

impl Failure {
    /// A failure of the given category with the given message.
    pub fn new(kind: String, message: String) -> (r: Failure)
        ensures
            r.kind == kind,
            r.message == message,
    {
        Failure { kind, message }
    }
}

/// Errors of the user input.
#[derive(Clone, Debug, Hash)]
pub enum InvalidUrlError {
    /// No input was provided.
    MissingInput,
    /// The URL is illegal; the parser's diagnostic.
    WrongFormat(String),
    /// The scheme is neither http nor https; the scheme found.
    WrongScheme(String),
    /// Other unknown error.
    Other,
}

/// Two input errors are equal when they are of the same kind with equal text.
pub open spec fn invalid_url_eq(a: InvalidUrlError, b: InvalidUrlError) -> bool {
    match (a, b) {
        (InvalidUrlError::MissingInput, InvalidUrlError::MissingInput) => true,
        (InvalidUrlError::WrongFormat(x), InvalidUrlError::WrongFormat(y)) => x@ == y@,
        (InvalidUrlError::WrongScheme(x), InvalidUrlError::WrongScheme(y)) => x@ == y@,
        (InvalidUrlError::Other, InvalidUrlError::Other) => true,
        _ => false,
    }
}

impl PartialEq for InvalidUrlError {
    fn eq(&self, other: &InvalidUrlError) -> (r: bool)
        ensures
            r == invalid_url_eq(*self, *other),
    {
        match (self, other) {
            (InvalidUrlError::MissingInput, InvalidUrlError::MissingInput) => true,
            (InvalidUrlError::WrongFormat(x), InvalidUrlError::WrongFormat(y)) => *x == *y,
            (InvalidUrlError::WrongScheme(x), InvalidUrlError::WrongScheme(y)) => *x == *y,
            (InvalidUrlError::Other, InvalidUrlError::Other) => true,
            _ => false,
        }
    }
}

impl vstd::std_specs::cmp::PartialEqSpecImpl for InvalidUrlError {
    open spec fn obeys_eq_spec() -> bool {
        true
    }

    open spec fn eq_spec(&self, other: &InvalidUrlError) -> bool {
        invalid_url_eq(*self, *other)
    }
}

impl Eq for InvalidUrlError {}

/// Errors of the DNS lookup.
#[derive(Clone, Debug, Hash)]
pub enum ResolveDnsError {
    /// The lookup found no address for the host.
    NoResults,
    /// The resolver failed.
    Other(Failure),
}

/// Two lookup errors are equal when they are of the same kind; resolver
/// failures compare by their category only.
pub open spec fn resolve_dns_eq(a: ResolveDnsError, b: ResolveDnsError) -> bool {
    match (a, b) {
        (ResolveDnsError::NoResults, ResolveDnsError::NoResults) => true,
        (ResolveDnsError::Other(x), ResolveDnsError::Other(y)) => x.kind@ == y.kind@,
        _ => false,
    }
}

impl PartialEq for ResolveDnsError {
    fn eq(&self, other: &ResolveDnsError) -> (r: bool)
        ensures
            r == resolve_dns_eq(*self, *other),
    {
        match (self, other) {
            (ResolveDnsError::NoResults, ResolveDnsError::NoResults) => true,
            (ResolveDnsError::Other(x), ResolveDnsError::Other(y)) => x.kind == y.kind,
            _ => false,
        }
    }
}

impl vstd::std_specs::cmp::PartialEqSpecImpl for ResolveDnsError {
    open spec fn obeys_eq_spec() -> bool {
        true
    }

    open spec fn eq_spec(&self, other: &ResolveDnsError) -> bool {
        resolve_dns_eq(*self, *other)
    }
}

/// Errors of a measurement, one kind for each way a stage can fail.
#[derive(Clone, Debug, Hash)]
pub enum TtfbError {
    /// The input is not a usable URL.
    InvalidUrl(InvalidUrlError),
    /// The DNS lookup failed.
    CantResolveDns(ResolveDnsError),
    /// The TCP connection could not be established.
    CantConnectTcp(Failure),
    /// The TLS session could not be set up.
    CantConnectTls(Failure),
    /// The TLS peer could not be verified.
    CantVerifyTls(Failure),
    /// The HTTP request could not be sent.
    CantConnectHttp(Failure),
    /// No byte arrived after the HTTP request was sent.
    NoHttpResponse,
    /// The stream failed while it was flushed.
    OtherStreamError(Failure),
    /// No DNS resolver could be configured.
    CantConfigureDNSError(Failure),
}

/// Two measurement errors are equal when they are of the same kind: I/O
/// failures compare by their category, TLS and resolver-configuration
/// failures not at all.
pub open spec fn ttfb_error_eq(a: TtfbError, b: TtfbError) -> bool {
    match (a, b) {
        (TtfbError::InvalidUrl(x), TtfbError::InvalidUrl(y)) => invalid_url_eq(x, y),
        (TtfbError::CantResolveDns(x), TtfbError::CantResolveDns(y)) => resolve_dns_eq(x, y),
        (TtfbError::CantConnectTcp(x), TtfbError::CantConnectTcp(y)) => x.kind@ == y.kind@,
        (TtfbError::CantConnectTls(_), TtfbError::CantConnectTls(_)) => true,
        (TtfbError::CantVerifyTls(_), TtfbError::CantVerifyTls(_)) => true,
        (TtfbError::CantConnectHttp(x), TtfbError::CantConnectHttp(y)) => x.kind@ == y.kind@,
        (TtfbError::NoHttpResponse, TtfbError::NoHttpResponse) => true,
        (TtfbError::OtherStreamError(x), TtfbError::OtherStreamError(y)) => x.kind@ == y.kind@,
        (TtfbError::CantConfigureDNSError(_), TtfbError::CantConfigureDNSError(_)) => true,
        _ => false,
    }
}

impl PartialEq for TtfbError {
    fn eq(&self, other: &TtfbError) -> (r: bool)
        ensures
            r == ttfb_error_eq(*self, *other),
    {
        match (self, other) {
            (TtfbError::InvalidUrl(x), TtfbError::InvalidUrl(y)) => *x == *y,
            (TtfbError::CantResolveDns(x), TtfbError::CantResolveDns(y)) => *x == *y,
            (TtfbError::CantConnectTcp(x), TtfbError::CantConnectTcp(y)) => x.kind == y.kind,
            (TtfbError::CantConnectTls(_), TtfbError::CantConnectTls(_)) => true,
            (TtfbError::CantVerifyTls(_), TtfbError::CantVerifyTls(_)) => true,
            (TtfbError::CantConnectHttp(x), TtfbError::CantConnectHttp(y)) => x.kind == y.kind,
            (TtfbError::NoHttpResponse, TtfbError::NoHttpResponse) => true,
            (TtfbError::OtherStreamError(x), TtfbError::OtherStreamError(y)) => x.kind == y.kind,
            (TtfbError::CantConfigureDNSError(_), TtfbError::CantConfigureDNSError(_)) => true,
            _ => false,
        }
    }
}

impl vstd::std_specs::cmp::PartialEqSpecImpl for TtfbError {
    open spec fn obeys_eq_spec() -> bool {
        true
    }

    open spec fn eq_spec(&self, other: &TtfbError) -> bool {
        ttfb_error_eq(*self, *other)
    }
}

} // verus!
