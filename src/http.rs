//! The HTTP/1.1 request that a measurement sends.

use vstd::prelude::*;

use crate::input::NormalizedInput;

verus! {

/// The GET request for `path` on `host`, sent with the user agent
/// `ttfb/<version>`.
pub open spec fn http11_request(path: Seq<char>, host: Seq<char>, version: Seq<char>) -> Seq<char> {
    "GET "@ + path + " HTTP/1.1\r\nHost: "@ + host + "\r\nUser-Agent: ttfb/"@ + version
        + "\r\nAccept: */*\r\nAccept-Encoding: gzip, deflate, br\r\n\r\n"@
}

/// Builds the HTTP/1.1 GET request for the target.
pub fn build_http11_header(target: &NormalizedInput, version: &str) -> (r: String)
    ensures
        r@ == http11_request(target.path@, target.host@, version@),
{
    let mut r = String::from_str("GET ");
    r.append(target.path.as_str());
    r.append(" HTTP/1.1\r\nHost: ");
    r.append(target.host.as_str());
    r.append("\r\nUser-Agent: ttfb/");
    r.append(version);
    r.append("\r\nAccept: */*\r\nAccept-Encoding: gzip, deflate, br\r\n\r\n");
    r
}

} // verus!
