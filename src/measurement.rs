//! The sequence of a measurement, apart from the network: which step comes
//! next, how each step's result is accounted for, and which error ends it.

use vstd::prelude::*;

use crate::address::{preferred_address, preferred_of, IpAddress};
use crate::error::{Failure, ResolveDnsError, TtfbError};
use crate::http::{build_http11_header, http11_request};
use crate::input::{NormalizedInput, NormalizedView, Scheme};
use crate::outcome::{lemma_no_dns_connect_total, nanos_or_zero, Elapsed, OutcomeView, TtfbOutcome};

verus! {

/// What the driver of a measurement does next.
#[derive(Debug)]
pub enum Action {
    /// Look up the addresses of `host`. Report `Resolved`, `Failed`, or
    /// `ResolverUnavailable` when no resolver could be configured.
    ResolveDns { host: String },
    /// Open a TCP connection to `addr` and `port` and flush it. Report
    /// `Completed`, `Failed` when the connect fails, or `FlushFailed`.
    ConnectTcp { addr: IpAddress, port: u16 },
    /// Run a TLS handshake over the connection, naming `server_name`, then
    /// flush. With `allow_insecure_certificates` any certificate and any
    /// signature is accepted. Report `Completed`, `Failed` when the session
    /// cannot be set up or the transport fails, `Rejected` when the peer is
    /// not verified, or `FlushFailed`.
    HandshakeTls { server_name: String, allow_insecure_certificates: bool },
    /// Write `request` on the connection and flush. Report `Completed`,
    /// `Failed` when the write fails, or `FlushFailed`.
    SendRequest { request: String },
    /// Wait for one byte of the response. Report `Completed`, or `Failed`
    /// when none can be read.
    ReadFirstByte,
    /// The measurement is complete.
    Finish(TtfbOutcome),
    /// The measurement failed.
    Abort(TtfbError),
}

/// What the driver reports of the step it performed. `elapsed` is the
/// time that the step took.
#[derive(Debug)]
pub enum Event {
    /// The lookup answered with `addrs`, in the resolver's order.
    Resolved { addrs: Vec<IpAddress>, elapsed: Elapsed },
    /// The step succeeded.
    Completed { elapsed: Elapsed },
    /// The step failed.
    Failed(Failure),
    /// The TLS peer's certificate or signature was not accepted.
    Rejected(Failure),
    /// The step succeeded, but flushing the stream afterwards failed.
    FlushFailed(Failure),
    /// No DNS resolver could be configured.
    ResolverUnavailable(Failure),
}

/// How far a measurement has come, with the results of the finished stages.
#[derive(Clone, Copy, Debug, PartialEq, Eq, Structural)]
pub enum Progress {
    /// Waiting for the DNS lookup.
    ResolvingDns,
    /// Waiting for the TCP connect to `addr`.
    ConnectingTcp { addr: IpAddress, dns: Option<Elapsed> },
    /// Waiting for the TLS handshake.
    HandshakingTls { addr: IpAddress, dns: Option<Elapsed>, tcp: Elapsed },
    /// Waiting for the request to be sent.
    SendingRequest { addr: IpAddress, dns: Option<Elapsed>, tcp: Elapsed, tls: Option<Elapsed> },
    /// Waiting for the first byte of the response.
    AwaitingFirstByte {
        addr: IpAddress,
        dns: Option<Elapsed>,
        tcp: Elapsed,
        tls: Option<Elapsed>,
        send: Elapsed,
    },
    /// Finished or failed; nothing more is taken.
    Over,
}

/// What a [`Measurement`] holds.
pub struct MeasurementView {
    pub user_input: Seq<char>,
    pub target: NormalizedView,
    pub allow_insecure_certificates: bool,
    pub version: Seq<char>,
    pub progress: Progress,
}

/// Whether `action` sends the GET request of the measurement.
pub open spec fn sends_request(m: MeasurementView, action: Action) -> bool {
    action matches Action::SendRequest { request } && request@ == http11_request(
        m.target.path,
        m.target.host,
        m.version,
    )
}

impl MeasurementView {
    /// Whether the measurement can take `event` now: the event answers the
    /// pending step, and the durations of all stages add up to a span that
    /// fits in the span type.
    pub open spec fn accepts(self, event: Event) -> bool {
        match self.progress {
            Progress::ResolvingDns => event is Resolved || event is Failed
                || event is ResolverUnavailable,
            Progress::ConnectingTcp { .. } => event is Completed || event is Failed
                || event is FlushFailed,
            Progress::HandshakingTls { .. } => event is Completed || event is Failed
                || event is Rejected || event is FlushFailed,
            Progress::SendingRequest { .. } => event is Completed || event is Failed
                || event is FlushFailed,
            Progress::AwaitingFirstByte { dns, tcp, tls, send, .. } => match event {
                Event::Completed { elapsed } => nanos_or_zero(dns) + tcp@ + nanos_or_zero(tls)
                    + send@ + elapsed@ <= u128::MAX,
                Event::Failed(_) => true,
                _ => false,
            },
            Progress::Over => false,
        }
    }

    /// The step that follows a successful TCP connect or TLS handshake:
    /// the handshake for https, else sending the request.
    pub open spec fn after_connect(
        self,
        addr: IpAddress,
        dns: Option<Elapsed>,
        tcp: Elapsed,
        next: Progress,
        action: Action,
    ) -> bool {
        if self.target.scheme == Scheme::Https {
            &&& next == (Progress::HandshakingTls { addr, dns, tcp })
            &&& action matches Action::HandshakeTls { server_name, allow_insecure_certificates }
            &&& server_name@ == self.target.host
            &&& allow_insecure_certificates == self.allow_insecure_certificates
        } else {
            &&& next == (Progress::SendingRequest { addr, dns, tcp, tls: None })
            &&& sends_request(self, action)
        }
    }

    /// The progress `next` and the action `action` that `event` leads to.
    pub open spec fn transition(self, event: Event, next: Progress, action: Action) -> bool {
        match self.progress {
            Progress::ResolvingDns => match event {
                Event::Resolved { addrs, elapsed } => match preferred_address(addrs@) {
                    Some(a) => next == (Progress::ConnectingTcp { addr: a, dns: Some(elapsed) })
                        && action == (Action::ConnectTcp { addr: a, port: self.target.port }),
                    None => next == Progress::Over && action == Action::Abort(
                        TtfbError::CantResolveDns(ResolveDnsError::NoResults),
                    ),
                },
                Event::Failed(f) => next == Progress::Over && action == Action::Abort(
                    TtfbError::CantResolveDns(ResolveDnsError::Other(f)),
                ),
                Event::ResolverUnavailable(f) => next == Progress::Over && action == Action::Abort(
                    TtfbError::CantConfigureDNSError(f),
                ),
                _ => false,
            },
            Progress::ConnectingTcp { addr, dns } => match event {
                Event::Completed { elapsed } => self.after_connect(addr, dns, elapsed, next, action),
                Event::Failed(f) => next == Progress::Over && action == Action::Abort(
                    TtfbError::CantConnectTcp(f),
                ),
                Event::FlushFailed(f) => next == Progress::Over && action == Action::Abort(
                    TtfbError::OtherStreamError(f),
                ),
                _ => false,
            },
            Progress::HandshakingTls { addr, dns, tcp } => match event {
                Event::Completed { elapsed } => next == (Progress::SendingRequest {
                    addr,
                    dns,
                    tcp,
                    tls: Some(elapsed),
                }) && sends_request(self, action),
                Event::Failed(f) => next == Progress::Over && action == Action::Abort(
                    TtfbError::CantConnectTls(f),
                ),
                Event::Rejected(f) => next == Progress::Over && action == Action::Abort(
                    TtfbError::CantVerifyTls(f),
                ),
                Event::FlushFailed(f) => next == Progress::Over && action == Action::Abort(
                    TtfbError::OtherStreamError(f),
                ),
                _ => false,
            },
            Progress::SendingRequest { addr, dns, tcp, tls } => match event {
                Event::Completed { elapsed } => next == (Progress::AwaitingFirstByte {
                    addr,
                    dns,
                    tcp,
                    tls,
                    send: elapsed,
                }) && action == Action::ReadFirstByte,
                Event::Failed(f) => next == Progress::Over && action == Action::Abort(
                    TtfbError::CantConnectHttp(f),
                ),
                Event::FlushFailed(f) => next == Progress::Over && action == Action::Abort(
                    TtfbError::OtherStreamError(f),
                ),
                _ => false,
            },
            Progress::AwaitingFirstByte { addr, dns, tcp, tls, send } => match event {
                Event::Completed { elapsed } => {
                    &&& next == Progress::Over
                    &&& action matches Action::Finish(o)
                    &&& o@ == (OutcomeView {
                        user_input: self.user_input,
                        ip_addr: addr,
                        port: self.target.port,
                        dns,
                        tcp,
                        tls,
                        send,
                        ttfb: elapsed,
                    })
                },
                Event::Failed(_) => next == Progress::Over && action == Action::Abort(
                    TtfbError::NoHttpResponse,
                ),
                _ => false,
            },
            Progress::Over => false,
        }
    }
}

/// One measurement of one target, driven step by step.
#[derive(Debug)]
pub struct Measurement {
    user_input: String,
    target: NormalizedInput,
    allow_insecure_certificates: bool,
    user_agent_version: String,
    progress: Progress,
}

impl View for Measurement {
    type V = MeasurementView;

    closed spec fn view(&self) -> MeasurementView {
        MeasurementView {
            user_input: self.user_input@,
            target: self.target@,
            allow_insecure_certificates: self.allow_insecure_certificates,
            version: self.user_agent_version@,
            progress: self.progress,
        }
    }
}

/// Whether the stages so far agree with the target: a lookup happened
/// exactly when the target names no IP address, and without a lookup the
/// connection goes to the address that the target names.
pub open spec fn lookup_agrees(ip: Option<IpAddress>, addr: IpAddress, dns: Option<Elapsed>) -> bool {
    match dns {
        Some(_) => ip is None,
        None => ip == Some(addr),
    }
}

/// Whether the finished stages of `p` agree with a target naming `ip`.
pub open spec fn progress_agrees(ip: Option<IpAddress>, p: Progress) -> bool {
    match p {
        Progress::ResolvingDns => ip is None,
        Progress::ConnectingTcp { addr, dns } => lookup_agrees(ip, addr, dns),
        Progress::HandshakingTls { addr, dns, .. } => lookup_agrees(ip, addr, dns),
        Progress::SendingRequest { addr, dns, .. } => lookup_agrees(ip, addr, dns),
        Progress::AwaitingFirstByte { addr, dns, .. } => lookup_agrees(ip, addr, dns),
        Progress::Over => true,
    }
}

/// The sum of the durations of the stages finished so far fits in the span type.
fn stages_fit(
    dns: Option<Elapsed>,
    tcp: Elapsed,
    tls: Option<Elapsed>,
    send: Elapsed,
    ttfb: Elapsed,
) -> (r: bool)
    ensures
        r == (nanos_or_zero(dns) + tcp@ + nanos_or_zero(tls) + send@ + ttfb@ <= u128::MAX),
{
    let d: u128 = match dns {
        Some(d) => d.as_nanos(),
        None => 0,
    };
    let t: u128 = match tls {
        Some(t) => t.as_nanos(),
        None => 0,
    };
    if let Some(a) = d.checked_add(tcp.as_nanos()) {
        if let Some(b) = a.checked_add(t) {
            if let Some(c) = b.checked_add(send.as_nanos()) {
                return c.checked_add(ttfb.as_nanos()).is_some();
            }
        }
    }
    false
}

impl Measurement {
    #[verifier::type_invariant]
    closed spec fn agrees_with_target(self) -> bool {
        progress_agrees(self.target.ip, self.progress)
    }

    /// Starts the measurement of `target`, entered by the user as
    /// `user_input`. The first step is the DNS lookup of the host, or, when
    /// the host is an IP address, the TCP connect to it. The request names
    /// the user agent `ttfb/<user_agent_version>`.
    pub fn new(
        user_input: String,
        target: NormalizedInput,
        allow_insecure_certificates: bool,
        user_agent_version: String,
    ) -> (r: (Measurement, Action))
        ensures
            r.0@ == (MeasurementView {
                user_input: user_input@,
                target: target@,
                allow_insecure_certificates,
                version: user_agent_version@,
                progress: match target.ip {
                    Some(a) => Progress::ConnectingTcp { addr: a, dns: None },
                    None => Progress::ResolvingDns,
                },
            }),
            progress_agrees(r.0@.target.ip, r.0@.progress),
            match target.ip {
                Some(a) => r.1 == Action::ConnectTcp { addr: a, port: target.port },
                None => r.1 matches Action::ResolveDns { host } && host@ == target.host@,
            },
    {
        let (progress, action) = match target.ip {
            Some(a) => (
                Progress::ConnectingTcp { addr: a, dns: None },
                Action::ConnectTcp { addr: a, port: target.port },
            ),
            None => (Progress::ResolvingDns, Action::ResolveDns { host: target.host.clone() }),
        };
        let m = Measurement {
            user_input,
            target,
            allow_insecure_certificates,
            user_agent_version,
            progress,
        };
        (m, action)
    }

    /// Whether the measurement can take `event` now.
    pub fn accepts(&self, event: &Event) -> (r: bool)
        ensures
            r == self@.accepts(*event),
    {
        match self.progress {
            Progress::ResolvingDns => match event {
                Event::Resolved { .. } | Event::Failed(_) | Event::ResolverUnavailable(_) => true,
                _ => false,
            },
            Progress::ConnectingTcp { .. } | Progress::SendingRequest { .. } => match event {
                Event::Completed { .. } | Event::Failed(_) | Event::FlushFailed(_) => true,
                _ => false,
            },
            Progress::HandshakingTls { .. } => match event {
                Event::Completed { .. } | Event::Failed(_) | Event::Rejected(_) | Event::FlushFailed(
                    _,
                ) => true,
                _ => false,
            },
            Progress::AwaitingFirstByte { dns, tcp, tls, send, .. } => match event {
                Event::Completed { elapsed } => stages_fit(dns, tcp, tls, send, *elapsed),
                Event::Failed(_) => true,
                _ => false,
            },
            Progress::Over => false,
        }
    }

    /// The request for the target.
    fn request(&self) -> (r: Action)
        ensures
            sends_request(self@, r),
    {
        Action::SendRequest {
            request: build_http11_header(&self.target, self.user_agent_version.as_str()),
        }
    }

    /// Takes the driver's report of the pending step and answers with the
    /// next step, the outcome, or the error that ends the measurement.
    pub fn advance(&mut self, event: Event) -> (action: Action)
        requires
            old(self)@.accepts(event),
        ensures
            final(self)@ == (MeasurementView { progress: final(self)@.progress, ..old(self)@ }),
            old(self)@.transition(event, final(self)@.progress, action),
            progress_agrees(final(self)@.target.ip, final(self)@.progress),
            action matches Action::Finish(o) ==> {
                &&& o@.dns is None <==> old(self)@.target.ip is Some
                &&& o@.dns is None ==> old(self)@.target.ip == Some(o@.ip_addr)
            },
    {
        proof {
            use_type_invariant(&*self);
        }
        let (next, action) = match (self.progress, event) {
            (Progress::ResolvingDns, Event::Resolved { addrs, elapsed }) => match preferred_of(&addrs) {
                Some(a) => (
                    Progress::ConnectingTcp { addr: a, dns: Some(elapsed) },
                    Action::ConnectTcp { addr: a, port: self.target.port },
                ),
                None => (
                    Progress::Over,
                    Action::Abort(TtfbError::CantResolveDns(ResolveDnsError::NoResults)),
                ),
            },
            (Progress::ResolvingDns, Event::Failed(f)) => (
                Progress::Over,
                Action::Abort(TtfbError::CantResolveDns(ResolveDnsError::Other(f))),
            ),
            (Progress::ResolvingDns, Event::ResolverUnavailable(f)) => (
                Progress::Over,
                Action::Abort(TtfbError::CantConfigureDNSError(f)),
            ),
            (Progress::ConnectingTcp { addr, dns }, Event::Completed { elapsed }) => {
                if self.target.scheme == Scheme::Https {
                    (
                        Progress::HandshakingTls { addr, dns, tcp: elapsed },
                        Action::HandshakeTls {
                            server_name: self.target.host.clone(),
                            allow_insecure_certificates: self.allow_insecure_certificates,
                        },
                    )
                } else {
                    (Progress::SendingRequest { addr, dns, tcp: elapsed, tls: None }, self.request())
                }
            },
            (Progress::ConnectingTcp { .. }, Event::Failed(f)) => (
                Progress::Over,
                Action::Abort(TtfbError::CantConnectTcp(f)),
            ),
            (Progress::HandshakingTls { addr, dns, tcp }, Event::Completed { elapsed }) => (
                Progress::SendingRequest { addr, dns, tcp, tls: Some(elapsed) },
                self.request(),
            ),
            (Progress::HandshakingTls { .. }, Event::Failed(f)) => (
                Progress::Over,
                Action::Abort(TtfbError::CantConnectTls(f)),
            ),
            (Progress::HandshakingTls { .. }, Event::Rejected(f)) => (
                Progress::Over,
                Action::Abort(TtfbError::CantVerifyTls(f)),
            ),
            (Progress::SendingRequest { addr, dns, tcp, tls }, Event::Completed { elapsed }) => (
                Progress::AwaitingFirstByte { addr, dns, tcp, tls, send: elapsed },
                Action::ReadFirstByte,
            ),
            (Progress::SendingRequest { .. }, Event::Failed(f)) => (
                Progress::Over,
                Action::Abort(TtfbError::CantConnectHttp(f)),
            ),
            (_, Event::FlushFailed(f)) => (
                Progress::Over,
                Action::Abort(TtfbError::OtherStreamError(f)),
            ),
            (
                Progress::AwaitingFirstByte { addr, dns, tcp, tls, send },
                Event::Completed { elapsed },
            ) => (
                Progress::Over,
                Action::Finish(
                    TtfbOutcome::new(
                        self.user_input.clone(),
                        addr,
                        self.target.port,
                        dns,
                        tcp,
                        tls,
                        send,
                        elapsed,
                    ),
                ),
            ),
            (_, _) => (Progress::Over, Action::Abort(TtfbError::NoHttpResponse)),
        };
        self.progress = next;
        action
    }
}

/// A measurement of a target that names an IP address makes no DNS lookup:
/// no step asks for one, and the outcome it finishes with has no DNS stage,
/// so that its TCP connect is the first stage, with a total equal to its
/// duration.
pub proof fn lemma_ip_target_skips_dns(
    m: MeasurementView,
    event: Event,
    next: Progress,
    action: Action,
)
    requires
        m.target.ip is Some,
        progress_agrees(m.target.ip, m.progress),
        m.accepts(event),
        m.transition(event, next, action),
    ensures
        next !is ResolvingDns,
        action !is ResolveDns,
        action matches Action::Finish(o) ==> {
            &&& o.dns_lookup_duration() is None
            &&& o.tcp_connect_duration().total()@ == o.tcp_connect_duration().relative()@
        },
{
    if let Action::Finish(o) = action {
        lemma_no_dns_connect_total(o);
    }
}

} // verus!
