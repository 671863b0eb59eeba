//! Elapsed times of the stages of one measurement.

use vstd::prelude::*;

use crate::address::IpAddress;

verus! {

/// A span of time, counted in whole nanoseconds.
#[derive(Clone, Copy, Debug, PartialEq, Eq, Structural, Hash)]
pub struct Elapsed {
    nanos: u128,
}

impl View for Elapsed {
    type V = nat;

    /// The span in nanoseconds.
    closed spec fn view(&self) -> nat {
        self.nanos as nat
    }
}

impl Elapsed {
    /// The span of `nanos` nanoseconds.
    pub fn from_nanos(nanos: u128) -> (r: Elapsed)
        ensures
            r@ == nanos,
    {
        Elapsed { nanos }
    }

    /// The span of `millis` milliseconds.
    pub fn from_millis(millis: u64) -> (r: Elapsed)
        ensures
            r@ == millis * 1_000_000,
    {
        Elapsed { nanos: millis as u128 * 1_000_000 }
    }

    /// The empty span.
    pub fn zero() -> (r: Elapsed)
        ensures
            r@ == 0,
    {
        Elapsed { nanos: 0 }
    }

    /// The span in nanoseconds.
    pub fn as_nanos(&self) -> (r: u128)
        ensures
            r == self@,
    {
        self.nanos
    }

    /// The span in whole milliseconds, rounded down.
    pub fn as_millis(&self) -> (r: u128)
        ensures
            r == self@ / 1_000_000,
    {
        self.nanos / 1_000_000
    }
}

/// The elapsed time of one stage, together with the time elapsed since the
/// start of the measurement when that stage ended.
#[derive(Clone, Copy, Debug, PartialEq, Eq, Structural, Hash)]
pub struct DurationPair {
    rel: Elapsed,
    total: Elapsed,
}

impl DurationPair {
    /// The duration of the stage itself.
    pub closed spec fn spec_relative(&self) -> Elapsed {
        self.rel
    }

    /// The time elapsed from the start of the measurement to the end of the stage.
    pub closed spec fn spec_total(&self) -> Elapsed {
        self.total
    }

    /// The pair of a stage that took `duration_step` and began once
    /// `absolute_duration_so_far` had elapsed.
    pub fn new(duration_step: Elapsed, absolute_duration_so_far: Elapsed) -> (r: DurationPair)
        requires
            absolute_duration_so_far@ + duration_step@ <= u128::MAX,
        ensures
            r.relative() == duration_step,
            r.total()@ == absolute_duration_so_far@ + duration_step@,
    {
        DurationPair {
            rel: duration_step,
            total: Elapsed { nanos: absolute_duration_so_far.nanos + duration_step.nanos },
        }
    }

    /// The duration of the stage itself.
    #[verifier::when_used_as_spec(spec_relative)]
    pub fn relative(&self) -> (r: Elapsed)
        ensures
            r == self.spec_relative(),
    {
        self.rel
    }

    /// The time between the start of the measurement and the end of the stage.
    #[verifier::when_used_as_spec(spec_total)]
    pub fn total(&self) -> (r: Elapsed)
        ensures
            r == self.spec_total(),
    {
        self.total
    }
}


/// The span of an optional stage, zero when the stage did not happen.
pub open spec fn nanos_or_zero(d: Option<Elapsed>) -> nat {
    match d {
        Some(d) => d@,
        None => 0,
    }
}

/// The total of an optional stage, zero when the stage did not happen.
pub open spec fn total_or_zero(p: Option<DurationPair>) -> nat {
    match p {
        Some(p) => p.total()@,
        None => 0,
    }
}

/// The one-element sequence of a present stage, empty for an absent one.
pub open spec fn present<A>(o: Option<A>) -> Seq<A> {
    match o {
        Some(a) => seq![a],
        None => Seq::empty(),
    }
}

/// What a [`TtfbOutcome`] records: the input, the address and port used,
/// and the relative duration of each stage, `None` for a skipped stage.
pub struct OutcomeView {
    pub user_input: Seq<char>,
    pub ip_addr: IpAddress,
    pub port: u16,
    pub dns: Option<Elapsed>,
    pub tcp: Elapsed,
    pub tls: Option<Elapsed>,
    pub send: Elapsed,
    pub ttfb: Elapsed,
}

impl OutcomeView {
    /// The sum of the relative durations of all stages that happened.
    pub open spec fn elapsed_sum(self) -> nat {
        nanos_or_zero(self.dns) + self.tcp@ + nanos_or_zero(self.tls) + self.send@ + self.ttfb@
    }
}

/// The result of a measurement: the time that each stage took, and the
/// total time elapsed at the end of each stage.
#[derive(Debug, Hash)]
pub struct TtfbOutcome {
    /// Copy of the user input.
    user_input: String,
    /// The IP address connected to.
    ip_addr: IpAddress,
    /// The port connected to.
    port: u16,
    /// The relative duration of the DNS lookup, if one was necessary.
    dns_duration_rel: Option<Elapsed>,
    /// The relative duration of the TCP connect.
    tcp_connect_duration_rel: Elapsed,
    /// The relative duration of the TLS handshake, if https was used.
    tls_handshake_duration_rel: Option<Elapsed>,
    /// The relative duration of sending the HTTP GET request.
    http_get_send_duration_rel: Elapsed,
    /// The relative duration until the first byte of the response arrived.
    http_ttfb_duration_rel: Elapsed,
}

impl View for TtfbOutcome {
    type V = OutcomeView;

    closed spec fn view(&self) -> OutcomeView {
        OutcomeView {
            user_input: self.user_input@,
            ip_addr: self.ip_addr,
            port: self.port,
            dns: self.dns_duration_rel,
            tcp: self.tcp_connect_duration_rel,
            tls: self.tls_handshake_duration_rel,
            send: self.http_get_send_duration_rel,
            ttfb: self.http_ttfb_duration_rel,
        }
    }
}

impl Clone for TtfbOutcome {
    fn clone(&self) -> (r: TtfbOutcome)
        ensures
            r@ == self@,
    {
        proof {
            use_type_invariant(self);
        }
        TtfbOutcome { user_input: self.user_input.clone(), ..*self }
    }
}

/// The pair of a stage that took `step` and ended once `total` had elapsed.
spec fn pair_of(step: Elapsed, total: nat) -> DurationPair {
    DurationPair { rel: step, total: Elapsed { nanos: total as u128 } }
}

impl TtfbOutcome {
    /// The totals of all stages fit in the span type.
    #[verifier::type_invariant]
    closed spec fn totals_fit(self) -> bool {
        self@.elapsed_sum() <= u128::MAX
    }

    /// Records a measurement from the relative duration of each stage.
    pub fn new(
        user_input: String,
        ip_addr: IpAddress,
        port: u16,
        dns_duration_rel: Option<Elapsed>,
        tcp_connect_duration_rel: Elapsed,
        tls_handshake_duration_rel: Option<Elapsed>,
        http_get_send_duration_rel: Elapsed,
        http_ttfb_duration_rel: Elapsed,
    ) -> (r: TtfbOutcome)
        requires
            nanos_or_zero(dns_duration_rel) + tcp_connect_duration_rel@ + nanos_or_zero(
                tls_handshake_duration_rel,
            ) + http_get_send_duration_rel@ + http_ttfb_duration_rel@ <= u128::MAX,
        ensures
            r@ == (OutcomeView {
                user_input: user_input@,
                ip_addr,
                port,
                dns: dns_duration_rel,
                tcp: tcp_connect_duration_rel,
                tls: tls_handshake_duration_rel,
                send: http_get_send_duration_rel,
                ttfb: http_ttfb_duration_rel,
            }),
    {
        TtfbOutcome {
            user_input,
            ip_addr,
            port,
            dns_duration_rel,
            tcp_connect_duration_rel,
            tls_handshake_duration_rel,
            http_get_send_duration_rel,
            http_ttfb_duration_rel,
        }
    }

    /// The DNS lookup is the first stage: it starts from zero.
    pub closed spec fn spec_dns_lookup_duration(&self) -> Option<DurationPair> {
        match self.dns_duration_rel {
            Some(d) => Some(pair_of(d, d@)),
            None => None,
        }
    }

    /// The TCP connect follows the DNS lookup, if there was one.
    pub closed spec fn spec_tcp_connect_duration(&self) -> DurationPair {
        pair_of(
            self.tcp_connect_duration_rel,
            total_or_zero(self.spec_dns_lookup_duration()) + self.tcp_connect_duration_rel@,
        )
    }

    /// The TLS handshake follows the TCP connect.
    pub closed spec fn spec_tls_handshake_duration(&self) -> Option<DurationPair> {
        match self.tls_handshake_duration_rel {
            Some(d) => Some(pair_of(d, self.spec_tcp_connect_duration().total()@ + d@)),
            None => None,
        }
    }

    /// Sending the request follows the TLS handshake, if there was one,
    /// else the TCP connect.
    pub closed spec fn spec_http_get_send_duration(&self) -> DurationPair {
        let so_far = match self.spec_tls_handshake_duration() {
            Some(p) => p.total()@,
            None => self.spec_tcp_connect_duration().total()@,
        };
        pair_of(self.http_get_send_duration_rel, so_far + self.http_get_send_duration_rel@)
    }

    /// The wait for the first byte follows sending the request.
    pub closed spec fn spec_ttfb_duration(&self) -> DurationPair {
        pair_of(
            self.http_ttfb_duration_rel,
            self.spec_http_get_send_duration().total()@ + self.http_ttfb_duration_rel@,
        )
    }

    /// The stages that happened, in the order of the measurement.
    pub open spec fn present_stages(&self) -> Seq<DurationPair> {
        present(self.dns_lookup_duration()) + seq![self.tcp_connect_duration()] + present(
            self.tls_handshake_duration(),
        ) + seq![self.http_get_send_duration(), self.ttfb_duration()]
    }

    /// The user input as it was given.
    pub fn user_input(&self) -> (r: &str)
        ensures
            r@ == self@.user_input,
    {
        self.user_input.as_str()
    }

    /// The IP address that was connected to.
    pub fn ip_addr(&self) -> (r: IpAddress)
        ensures
            r == self@.ip_addr,
    {
        self.ip_addr
    }

    /// The port that was connected to.
    pub fn port(&self) -> (r: u16)
        ensures
            r == self@.port,
    {
        self.port
    }

    /// The pair of the DNS lookup, if one was necessary; it is the first
    /// stage, so its total equals its relative duration.
    #[verifier::when_used_as_spec(spec_dns_lookup_duration)]
    pub fn dns_lookup_duration(&self) -> (r: Option<DurationPair>)
        ensures
            r == self.spec_dns_lookup_duration(),
            r is Some <==> self@.dns is Some,
            r matches Some(p) ==> p.relative() == self@.dns->0 && p.total()@ == self@.dns->0@,
    {
        match self.dns_duration_rel {
            Some(d) => Some(DurationPair::new(d, Elapsed::zero())),
            None => None,
        }
    }

    /// The pair of the TCP connect.
    #[verifier::when_used_as_spec(spec_tcp_connect_duration)]
    pub fn tcp_connect_duration(&self) -> (r: DurationPair)
        ensures
            r == self.spec_tcp_connect_duration(),
            r.relative() == self@.tcp,
            r.total()@ == nanos_or_zero(self@.dns) + self@.tcp@,
    {
        proof {
            use_type_invariant(self);
        }
        let so_far = match self.dns_lookup_duration() {
            Some(p) => p.total(),
            None => Elapsed::zero(),
        };
        DurationPair::new(self.tcp_connect_duration_rel, so_far)
    }

    /// The pair of the TLS handshake, if https was used.
    #[verifier::when_used_as_spec(spec_tls_handshake_duration)]
    pub fn tls_handshake_duration(&self) -> (r: Option<DurationPair>)
        ensures
            r == self.spec_tls_handshake_duration(),
            r is Some <==> self@.tls is Some,
            r matches Some(p) ==> p.relative() == self@.tls->0 && p.total()@ == nanos_or_zero(
                self@.dns,
            ) + self@.tcp@ + self@.tls->0@,
    {
        proof {
            use_type_invariant(self);
        }
        match self.tls_handshake_duration_rel {
            Some(d) => Some(DurationPair::new(d, self.tcp_connect_duration().total())),
            None => None,
        }
    }

    /// The pair of sending the HTTP GET request.
    #[verifier::when_used_as_spec(spec_http_get_send_duration)]
    pub fn http_get_send_duration(&self) -> (r: DurationPair)
        ensures
            r == self.spec_http_get_send_duration(),
            r.relative() == self@.send,
            r.total()@ == nanos_or_zero(self@.dns) + self@.tcp@ + nanos_or_zero(self@.tls)
                + self@.send@,
    {
        proof {
            use_type_invariant(self);
        }
        let so_far = match self.tls_handshake_duration() {
            Some(p) => p.total(),
            None => self.tcp_connect_duration().total(),
        };
        DurationPair::new(self.http_get_send_duration_rel, so_far)
    }

    /// The pair of the wait for the first byte of the response.
    #[verifier::when_used_as_spec(spec_ttfb_duration)]
    pub fn ttfb_duration(&self) -> (r: DurationPair)
        ensures
            r == self.spec_ttfb_duration(),
            r.relative() == self@.ttfb,
            r.total()@ == self@.elapsed_sum(),
            self@.elapsed_sum() <= u128::MAX,
    {
        proof {
            use_type_invariant(self);
        }
        DurationPair::new(self.http_ttfb_duration_rel, self.http_get_send_duration().total())
    }
}

/// Of every outcome: the total of each stage that happened is the total of
/// the stage before it that happened, or zero for the first one, plus its
/// own duration; so no stage's total is below its own duration.
pub proof fn lemma_totals_chain(o: TtfbOutcome)
    requires
        o@.elapsed_sum() <= u128::MAX,
    ensures
        forall|i: int|
            0 <= i < o.present_stages().len() ==> #[trigger] o.present_stages()[i].total()@ == (
            if i == 0 {
                0
            } else {
                o.present_stages()[i - 1].total()@
            }) + o.present_stages()[i].relative()@,
        forall|i: int|
            0 <= i < o.present_stages().len() ==> #[trigger] o.present_stages()[i].total()@
                >= o.present_stages()[i].relative()@,
{
    let s = o.present_stages();
    let dns = o.dns_lookup_duration();
    let tcp = o.tcp_connect_duration();
    let tls = o.tls_handshake_duration();
    let send = o.http_get_send_duration();
    let ttfb = o.ttfb_duration();
    let pre = present(dns) + seq![tcp];
    let mid = pre + present(tls);
    assert(tcp.total()@ == total_or_zero(dns) + tcp.relative()@);
    assert(dns matches Some(p) ==> p.total()@ == p.relative()@);
    assert(tls matches Some(p) ==> p.total()@ == tcp.total()@ + p.relative()@);
    assert(send.total()@ == (match tls {
        Some(p) => p.total()@,
        None => tcp.total()@,
    }) + send.relative()@);
    assert(ttfb.total()@ == send.total()@ + ttfb.relative()@);
    assert(s == mid + seq![send, ttfb]);
    if dns is Some {
        assert(s[0] == dns->0);
        assert(s[1] == tcp);
        if tls is Some {
            assert(s[2] == tls->0);
            assert(s[3] == send);
            assert(s[4] == ttfb);
            assert(s.len() == 5);
        } else {
            assert(s[2] == send);
            assert(s[3] == ttfb);
            assert(s.len() == 4);
        }
    } else {
        assert(s[0] == tcp);
        if tls is Some {
            assert(s[1] == tls->0);
            assert(s[2] == send);
            assert(s[3] == ttfb);
            assert(s.len() == 4);
        } else {
            assert(s[1] == send);
            assert(s[2] == ttfb);
            assert(s.len() == 3);
        }
    }
}

/// Of every outcome without a DNS lookup (the input named an IP address):
/// it has no DNS stage, and the TCP connect is the first stage, so its
/// total equals its duration.
pub proof fn lemma_no_dns_connect_total(o: TtfbOutcome)
    requires
        o@.elapsed_sum() <= u128::MAX,
        o@.dns is None,
    ensures
        o.dns_lookup_duration() is None,
        o.tcp_connect_duration().total()@ == o.tcp_connect_duration().relative()@,
{
}

} // verus!
