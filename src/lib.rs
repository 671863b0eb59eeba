//! Measures where the latency of an HTTP(S) request goes: DNS lookup, TCP
//! connect, TLS handshake, sending the GET request, and the wait for the
//! first byte of the response (TTFB).
//!
//! The library holds the logic of a measurement and no I/O: a
//! [`Measurement`] tells its driver which network step to perform next and
//! turns what the driver reports back into the next step, an error of the
//! taxonomy, or the final [`TtfbOutcome`].

pub mod address;
pub mod error;
pub mod http;
pub mod input;
pub mod measurement;
pub mod outcome;

pub use address::{preferred_of, IpAddress};
pub use error::{Failure, InvalidUrlError, ResolveDnsError, TtfbError};
pub use http::build_http11_header;
pub use input::{
    check_scheme_is_allowed, normalize_input, parse_input_as_url, prepend_default_scheme_if_necessary,
    NormalizedInput, ParsedUrl, Scheme,
};
pub use measurement::{Action, Event, Measurement, Progress};
pub use outcome::{DurationPair, Elapsed, TtfbOutcome};
