//! IP addresses and the choice among the answers of a DNS lookup.

use vstd::prelude::*;

verus! {

/// An IP address, held as its number in network byte order.
#[derive(Clone, Copy, Debug, PartialEq, Eq, Structural, Hash)]
pub enum IpAddress {
    /// An IPv4 address, `a.b.c.d` being `a << 24 | b << 16 | c << 8 | d`.
    V4(u32),
    /// An IPv6 address, its first group in the most significant bits.
    V6(u128),
}

impl IpAddress {
    /// Whether this is an IPv6 address.
    pub fn is_ipv6(&self) -> (r: bool)
        ensures
            r == (*self is V6),
    {
        match self {
            IpAddress::V4(_) => false,
            IpAddress::V6(_) => true,
        }
    }
}

/// The first address of `addrs` of the given family (IPv6 or IPv4).
pub open spec fn first_of_family(addrs: Seq<IpAddress>, v6: bool) -> Option<IpAddress>
    decreases addrs.len(),
{
    if addrs.len() == 0 {
        None
    } else if (addrs[0] is V6) == v6 {
        Some(addrs[0])
    } else {
        first_of_family(addrs.drop_first(), v6)
    }
}

/// The address a measurement connects to among the answers of a lookup:
/// the first IPv4 address, else the first IPv6 address.
pub open spec fn preferred_address(addrs: Seq<IpAddress>) -> Option<IpAddress> {
    match first_of_family(addrs, false) {
        Some(a) => Some(a),
        None => first_of_family(addrs, true),
    }
}

/// The first address of `addrs` whose family is IPv6 exactly when `v6`.
fn first_address_of_family(addrs: &Vec<IpAddress>, v6: bool) -> (r: Option<IpAddress>)
    ensures
        r == first_of_family(addrs@, v6),
{
    let n = addrs.len();
    let mut i: usize = 0;
    assert(addrs@.subrange(0, n as int) =~= addrs@);
    while i < n
        invariant
            n == addrs@.len(),
            i <= n,
            first_of_family(addrs@, v6) == first_of_family(addrs@.subrange(i as int, n as int), v6),
        decreases n - i,
    {
        let a = addrs[i];
        assert(addrs@.subrange(i as int, n as int).drop_first() =~= addrs@.subrange(i + 1, n as int));
        if a.is_ipv6() == v6 {
            return Some(a);
        }
        i = i + 1;
    }
    None
}

/// Picks the address to connect to among the answers of a DNS lookup: the
/// first IPv4 address if there is one, else the first IPv6 address; `None`
/// when there is no answer.
pub fn preferred_of(addrs: &Vec<IpAddress>) -> (r: Option<IpAddress>)
    ensures
        r == preferred_address(addrs@),
        r is None <==> addrs@.len() == 0,
{
    proof {
        lemma_preferred_exists(addrs@);
    }
    match first_address_of_family(addrs, false) {
        Some(a) => Some(a),
        None => first_address_of_family(addrs, true),
    }
}

/// A non-empty list of answers always yields an address.
proof fn lemma_preferred_exists(addrs: Seq<IpAddress>)
    ensures
        preferred_address(addrs) is None <==> addrs.len() == 0,
    decreases addrs.len(),
{
    if addrs.len() > 0 {
        lemma_preferred_exists(addrs.drop_first());
    }
}

} // verus!
