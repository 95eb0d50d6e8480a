use vstd::prelude::*;

verus! {

/// An IPv4 network: an address and the length of its prefix.
///
/// The address is the 32-bit number whose most significant byte is the first
/// octet. Bits of the address beyond the prefix are kept as they were given.
#[derive(Debug, Clone, Copy, PartialEq, Eq, Structural)]
pub struct Ipv4Net {
    pub addr: u32,
    pub prefix: u8,
}

impl Ipv4Net {
    /// The prefix is no longer than an IPv4 address.
    pub open spec fn wf(self) -> bool {
        self.prefix <= 32
    }
}

/// An IPv6 network: an address and the length of its prefix.
///
/// The address is the 128-bit number whose most significant 16 bits are the
/// first segment. Bits of the address beyond the prefix are kept as they were
/// given.
#[derive(Debug, Clone, Copy, PartialEq, Eq, Structural)]
pub struct Ipv6Net {
    pub addr: u128,
    pub prefix: u8,
}

impl Ipv6Net {
    /// The prefix is no longer than an IPv6 address.
    pub open spec fn wf(self) -> bool {
        self.prefix <= 128
    }
}

/// What `ipnetwork` makes of a text as an IPv4 network: the network, or the
/// error for a text that is none.
pub uninterp spec fn ipv4_network_of(text: Seq<char>) -> Result<Ipv4Net, ipnetwork::IpNetworkError>;

/// What `ipnetwork` makes of a text as an IPv6 network: the network, or the
/// error for a text that is none.
pub uninterp spec fn ipv6_network_of(text: Seq<char>) -> Result<Ipv6Net, ipnetwork::IpNetworkError>;

/// Parses a text with `FromStr` of `ipnetwork::Ipv4Network` and hands out
/// the address and prefix of the network found. Not proved: that the outcome
/// depends on the text alone, and that `ipnetwork` accepts no prefix longer
/// than 32.
#[verifier::external_body]
pub(crate) fn parse_ipv4_network(text: &str) -> (parsed: Result<
    Ipv4Net,
    ipnetwork::IpNetworkError,
>)
    ensures
        parsed == ipv4_network_of(text@),
        parsed matches Ok(net) ==> net.wf(),
{
    match text.parse::<ipnetwork::Ipv4Network>() {
        Ok(net) => Ok(Ipv4Net { addr: u32::from(net.ip()), prefix: net.prefix() }),
        Err(error) => Err(error),
    }
}

/// Parses a text with `FromStr` of `ipnetwork::Ipv6Network` and hands out
/// the address and prefix of the network found. Not proved: that the outcome
/// depends on the text alone, and that `ipnetwork` accepts no prefix longer
/// than 128.
#[verifier::external_body]
pub(crate) fn parse_ipv6_network(text: &str) -> (parsed: Result<
    Ipv6Net,
    ipnetwork::IpNetworkError,
>)
    ensures
        parsed == ipv6_network_of(text@),
        parsed matches Ok(net) ==> net.wf(),
{
    match text.parse::<ipnetwork::Ipv6Network>() {
        Ok(net) => Ok(Ipv6Net { addr: u128::from(net.ip()), prefix: net.prefix() }),
        Err(error) => Err(error),
    }
}

} // verus!
