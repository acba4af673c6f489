use crate::text::{decimal, push_decimal};
use vstd::prelude::*;

verus! {

/// An IPv4 address, held as its 32-bit value with the first octet in the
/// most significant byte.
#[derive(Clone, Copy, Debug, PartialEq, Eq, Hash, Structural)]
pub struct Ipv4Address(pub u32);

/// An IPv6 address, held as its 128-bit value with the first segment in the
/// most significant bits.
#[derive(Clone, Copy, Debug, PartialEq, Eq, Hash, Structural)]
pub struct Ipv6Address(pub u128);

/// An address of either family.
#[derive(Clone, Copy, Debug, PartialEq, Eq, Hash, Structural)]
pub enum IpAddress {
    V4(Ipv4Address),
    V6(Ipv6Address),
}

/// The longest prefix an IPv4 network can have.
pub const IPV4_MAX_PREFIX_LEN: u8 = 32;

/// The longest prefix an IPv6 network can have.
pub const IPV6_MAX_PREFIX_LEN: u8 = 128;

impl Ipv4Address {
    /// The address written `a.b.c.d`.
    pub open spec fn of_octets(a: u8, b: u8, c: u8, d: u8) -> Ipv4Address {
        Ipv4Address((a * 0x100_0000 + b * 0x1_0000 + c * 0x100 + d) as u32)
    }

    /// One of the four octets, counted from the most significant.
    pub open spec fn octet(self, i: int) -> u8 {
        if i == 0 {
            (self.0 / 0x100_0000) as u8
        } else if i == 1 {
            (self.0 / 0x1_0000 % 0x100) as u8
        } else if i == 2 {
            (self.0 / 0x100 % 0x100) as u8
        } else {
            (self.0 % 0x100) as u8
        }
    }

    /// The dotted-decimal form, such as `192.0.2.1`.
    pub open spec fn text(self) -> Seq<char> {
        decimal(self.octet(0) as nat) + seq!['.'] + decimal(self.octet(1) as nat) + seq!['.']
            + decimal(self.octet(2) as nat) + seq!['.'] + decimal(self.octet(3) as nat)
    }

    /// The address written `a.b.c.d`.
    pub fn new(a: u8, b: u8, c: u8, d: u8) -> (addr: Ipv4Address)
        ensures
            addr == Ipv4Address::of_octets(a, b, c, d),
    {
        Ipv4Address(
            (a as u32) * 0x100_0000 + (b as u32) * 0x1_0000 + (c as u32) * 0x100 + (d as u32),
        )
    }

    /// The four octets, the most significant first.
    pub fn octets(&self) -> (o: [u8; 4])
        ensures
            o[0] == self.octet(0),
            o[1] == self.octet(1),
            o[2] == self.octet(2),
            o[3] == self.octet(3),
    {
        [
            (self.0 / 0x100_0000) as u8,
            (self.0 / 0x1_0000 % 0x100) as u8,
            (self.0 / 0x100 % 0x100) as u8,
            (self.0 % 0x100) as u8,
        ]
    }

    /// Whether this is `0.0.0.0`.
    pub fn is_unspecified(&self) -> (b: bool)
        ensures
            b == (self.0 == 0),
    {
        self.0 == 0
    }

    /// Appends the dotted-decimal form to `out`.
    pub fn push_text(&self, out: &mut String)
        ensures
            final(out)@ == old(out)@ + self.text(),
    {
        let o = self.octets();
        push_decimal(out, o[0] as u64);
        out.push('.');
        push_decimal(out, o[1] as u64);
        out.push('.');
        push_decimal(out, o[2] as u64);
        out.push('.');
        push_decimal(out, o[3] as u64);
    }

    /// The dotted-decimal form as a string.
    pub fn to_text(&self) -> (s: String)
        ensures
            s@ == self.text(),
    {
        let mut s = String::new();
        self.push_text(&mut s);
        s
    }
}

impl Ipv6Address {
    /// Whether this is `::`.
    pub fn is_unspecified(&self) -> (b: bool)
        ensures
            b == (self.0 == 0),
    {
        self.0 == 0
    }
}

impl IpAddress {
    /// Whether this is an IPv4 address.
    pub open spec fn is_v4(self) -> bool {
        self is V4
    }

    /// Whether this is the all-zero address of its family.
    pub open spec fn unspecified(self) -> bool {
        match self {
            IpAddress::V4(a) => a.0 == 0,
            IpAddress::V6(a) => a.0 == 0,
        }
    }

    /// The longest prefix that a network of this address's family can have.
    pub open spec fn max_prefix_len(self) -> u8 {
        match self {
            IpAddress::V4(_) => IPV4_MAX_PREFIX_LEN,
            IpAddress::V6(_) => IPV6_MAX_PREFIX_LEN,
        }
    }

    /// Whether this is an IPv4 address.
    pub fn is_ipv4(&self) -> (b: bool)
        ensures
            b == self.is_v4(),
    {
        match self {
            IpAddress::V4(_) => true,
            IpAddress::V6(_) => false,
        }
    }

    /// Whether this is the all-zero address of its family.
    pub fn is_unspecified(&self) -> (b: bool)
        ensures
            b == self.unspecified(),
    {
        match self {
            IpAddress::V4(a) => a.is_unspecified(),
            IpAddress::V6(a) => a.is_unspecified(),
        }
    }
}

/// The IPv4 netmask with `prefix_len` leading one bits.
pub open spec fn ipv4_mask(prefix_len: u8) -> u32 {
    if prefix_len == 0 {
        0
    } else if prefix_len >= 32 {
        0xffff_ffff
    } else {
        0xffff_ffffu32 << ((32 - prefix_len) as u32)
    }
}

/// The IPv6 netmask with `prefix_len` leading one bits.
pub open spec fn ipv6_mask(prefix_len: u8) -> u128 {
    if prefix_len == 0 {
        0
    } else if prefix_len >= 128 {
        0xffff_ffff_ffff_ffff_ffff_ffff_ffff_ffff
    } else {
        0xffff_ffff_ffff_ffff_ffff_ffff_ffff_ffffu128 << ((128 - prefix_len) as u128)
    }
}

/// Whether `addr` has no bit set beyond its first `prefix_len` bits, and
/// `prefix_len` is one its family allows.
pub open spec fn is_network_address(addr: IpAddress, prefix_len: u8) -> bool {
    match addr {
        IpAddress::V4(a) => prefix_len <= IPV4_MAX_PREFIX_LEN && a.0 & !ipv4_mask(prefix_len) == 0,
        IpAddress::V6(a) => prefix_len <= IPV6_MAX_PREFIX_LEN && a.0 & !ipv6_mask(prefix_len) == 0,
    }
}

/// Computes the IPv4 netmask with `prefix_len` leading one bits.
pub fn ipv4_netmask(prefix_len: u8) -> (mask: u32)
    ensures
        mask == ipv4_mask(prefix_len),
{
    if prefix_len == 0 {
        0
    } else if prefix_len >= 32 {
        0xffff_ffff
    } else {
        let shift: u32 = 32 - prefix_len as u32;
        0xffff_ffffu32 << shift
    }
}

/// Computes the IPv6 netmask with `prefix_len` leading one bits.
pub fn ipv6_netmask(prefix_len: u8) -> (mask: u128)
    ensures
        mask == ipv6_mask(prefix_len),
{
    if prefix_len == 0 {
        0
    } else if prefix_len >= 128 {
        0xffff_ffff_ffff_ffff_ffff_ffff_ffff_ffff
    } else {
        let shift: u128 = 128 - prefix_len as u128;
        0xffff_ffff_ffff_ffff_ffff_ffff_ffff_ffffu128 << shift
    }
}

/// Decides whether `addr` is a network address of the given prefix
/// length.
pub fn check_network_address(addr: &IpAddress, prefix_len: u8) -> (b: bool)
    ensures
        b == is_network_address(*addr, prefix_len),
{
    match addr {
        IpAddress::V4(a) => prefix_len <= IPV4_MAX_PREFIX_LEN && a.0 & !ipv4_netmask(prefix_len)
            == 0,
        IpAddress::V6(a) => prefix_len <= IPV6_MAX_PREFIX_LEN && a.0 & !ipv6_netmask(prefix_len)
            == 0,
    }
}

/// A prefix length beyond what the address family allows.
#[derive(Clone, Copy, Debug, PartialEq, Eq, Structural)]
pub struct PrefixLenError;

/// An IPv4 address with a prefix length of at most 32. The address may have
/// bits set beyond the prefix.
#[derive(Clone, Copy, Debug, PartialEq, Eq, Hash, Structural)]
pub struct Ipv4Prefix {
    addr: Ipv4Address,
    prefix_len: u8,
}

/// An IPv6 address with a prefix length of at most 128.
#[derive(Clone, Copy, Debug, PartialEq, Eq, Hash, Structural)]
pub struct Ipv6Prefix {
    addr: Ipv6Address,
    prefix_len: u8,
}

/// A network prefix of either family.
#[derive(Clone, Copy, Debug, PartialEq, Eq, Hash, Structural)]
pub enum Prefix {
    V4(Ipv4Prefix),
    V6(Ipv6Prefix),
}

impl Ipv4Prefix {
    /// What holds of every IPv4 prefix: its length is at most 32.
    #[verifier::type_invariant]
    spec fn len_in_range(self) -> bool {
        self.prefix_len <= IPV4_MAX_PREFIX_LEN
    }

    /// The address.
    pub closed spec fn spec_addr(&self) -> Ipv4Address {
        self.addr
    }

    /// The prefix length.
    pub closed spec fn spec_prefix_len(&self) -> u8 {
        self.prefix_len
    }

    /// The prefix made of these two parts.
    pub closed spec fn of(addr: Ipv4Address, prefix_len: u8) -> Ipv4Prefix {
        Ipv4Prefix { addr, prefix_len }
    }

    /// The network mask as an address, such as `255.255.255.0` for a length
    /// of 24.
    pub open spec fn spec_netmask(&self) -> Ipv4Address {
        Ipv4Address(ipv4_mask(self.prefix_len()))
    }

    /// The form `a.b.c.d/len`.
    pub open spec fn text(self) -> Seq<char> {
        self.addr().text() + seq!['/'] + decimal(self.prefix_len() as nat)
    }

    /// The prefix made of an address and a prefix length, which is at most
    /// 32.
    pub fn new(addr: Ipv4Address, prefix_len: u8) -> (r: Result<Ipv4Prefix, PrefixLenError>)
        ensures
            prefix_len <= IPV4_MAX_PREFIX_LEN ==> r == Ok::<Ipv4Prefix, PrefixLenError>(
                Ipv4Prefix::of(addr, prefix_len),
            ),
            prefix_len > IPV4_MAX_PREFIX_LEN ==> r is Err,
    {
        if prefix_len > IPV4_MAX_PREFIX_LEN {
            Err(PrefixLenError)
        } else {
            Ok(Ipv4Prefix { addr, prefix_len })
        }
    }

    /// The address.
    #[verifier::when_used_as_spec(spec_addr)]
    pub fn addr(&self) -> (a: Ipv4Address)
        ensures
            a == self.spec_addr(),
    {
        self.addr
    }

    /// The prefix length.
    #[verifier::when_used_as_spec(spec_prefix_len)]
    pub fn prefix_len(&self) -> (len: u8)
        ensures
            len == self.spec_prefix_len(),
            len <= IPV4_MAX_PREFIX_LEN,
    {
        proof {
            use_type_invariant(self);
        }
        self.prefix_len
    }

    /// The network mask as an address.
    #[verifier::when_used_as_spec(spec_netmask)]
    pub fn netmask(&self) -> (mask: Ipv4Address)
        ensures
            mask == self.spec_netmask(),
    {
        Ipv4Address(ipv4_netmask(self.prefix_len))
    }

    /// Appends the form `a.b.c.d/len` to `out`.
    pub fn push_text(&self, out: &mut String)
        ensures
            final(out)@ == old(out)@ + self.text(),
    {
        self.addr.push_text(out);
        out.push('/');
        push_decimal(out, self.prefix_len as u64);
    }

    /// The form `a.b.c.d/len` as a string.
    pub fn to_text(&self) -> (s: String)
        ensures
            s@ == self.text(),
    {
        let mut s = String::new();
        self.push_text(&mut s);
        s
    }
}

impl Ipv6Prefix {
    /// What holds of every IPv6 prefix: its length is at most 128.
    #[verifier::type_invariant]
    spec fn len_in_range(self) -> bool {
        self.prefix_len <= IPV6_MAX_PREFIX_LEN
    }

    /// The address.
    pub closed spec fn spec_addr(&self) -> Ipv6Address {
        self.addr
    }

    /// The prefix length.
    pub closed spec fn spec_prefix_len(&self) -> u8 {
        self.prefix_len
    }

    /// The prefix made of these two parts.
    pub closed spec fn of(addr: Ipv6Address, prefix_len: u8) -> Ipv6Prefix {
        Ipv6Prefix { addr, prefix_len }
    }

    /// The prefix made of an address and a prefix length, which is at most
    /// 128.
    pub fn new(addr: Ipv6Address, prefix_len: u8) -> (r: Result<Ipv6Prefix, PrefixLenError>)
        ensures
            prefix_len <= IPV6_MAX_PREFIX_LEN ==> r == Ok::<Ipv6Prefix, PrefixLenError>(
                Ipv6Prefix::of(addr, prefix_len),
            ),
            prefix_len > IPV6_MAX_PREFIX_LEN ==> r is Err,
    {
        if prefix_len > IPV6_MAX_PREFIX_LEN {
            Err(PrefixLenError)
        } else {
            Ok(Ipv6Prefix { addr, prefix_len })
        }
    }

    /// The address.
    #[verifier::when_used_as_spec(spec_addr)]
    pub fn addr(&self) -> (a: Ipv6Address)
        ensures
            a == self.spec_addr(),
    {
        self.addr
    }

    /// The prefix length.
    #[verifier::when_used_as_spec(spec_prefix_len)]
    pub fn prefix_len(&self) -> (len: u8)
        ensures
            len == self.spec_prefix_len(),
            len <= IPV6_MAX_PREFIX_LEN,
    {
        proof {
            use_type_invariant(self);
        }
        self.prefix_len
    }
}

impl Prefix {
    /// The address.
    pub open spec fn spec_addr(&self) -> IpAddress {
        match self {
            Prefix::V4(p) => IpAddress::V4(p.addr()),
            Prefix::V6(p) => IpAddress::V6(p.addr()),
        }
    }

    /// The prefix length.
    pub open spec fn spec_prefix_len(&self) -> u8 {
        match self {
            Prefix::V4(p) => p.prefix_len(),
            Prefix::V6(p) => p.prefix_len(),
        }
    }

    /// The prefix made of these two parts.
    pub open spec fn of(addr: IpAddress, prefix_len: u8) -> Prefix {
        match addr {
            IpAddress::V4(a) => Prefix::V4(Ipv4Prefix::of(a, prefix_len)),
            IpAddress::V6(a) => Prefix::V6(Ipv6Prefix::of(a, prefix_len)),
        }
    }

    /// The prefix made of an address and a prefix length, which is at most
    /// what the family of the address allows.
    pub fn new(addr: IpAddress, prefix_len: u8) -> (r: Result<Prefix, PrefixLenError>)
        ensures
            prefix_len <= addr.max_prefix_len() ==> r == Ok::<Prefix, PrefixLenError>(
                Prefix::of(addr, prefix_len),
            ),
            prefix_len > addr.max_prefix_len() ==> r is Err,
    {
        match addr {
            IpAddress::V4(a) => match Ipv4Prefix::new(a, prefix_len) {
                Ok(p) => Ok(Prefix::V4(p)),
                Err(e) => Err(e),
            },
            IpAddress::V6(a) => match Ipv6Prefix::new(a, prefix_len) {
                Ok(p) => Ok(Prefix::V6(p)),
                Err(e) => Err(e),
            },
        }
    }

    /// The address.
    #[verifier::when_used_as_spec(spec_addr)]
    pub fn addr(&self) -> (a: IpAddress)
        ensures
            a == self.spec_addr(),
    {
        match self {
            Prefix::V4(p) => IpAddress::V4(p.addr()),
            Prefix::V6(p) => IpAddress::V6(p.addr()),
        }
    }

    /// The prefix length.
    #[verifier::when_used_as_spec(spec_prefix_len)]
    pub fn prefix_len(&self) -> (len: u8)
        ensures
            len == self.spec_prefix_len(),
            len <= self.spec_addr().max_prefix_len(),
    {
        match self {
            Prefix::V4(p) => p.prefix_len(),
            Prefix::V6(p) => p.prefix_len(),
        }
    }
}

/// The error of `ipnet`'s parser. It says nothing of the cause.
#[verifier::external_type_specification]
#[verifier::external_body]
pub struct ExAddrParseError(ipnet::AddrParseError);

/// What `ipnet` reads from a text as a network: an IPv4 or an IPv6 address,
/// a slash and a prefix length in decimal digits. `None` stands for a text
/// that it does not take.
pub uninterp spec fn net_of_text(text: Seq<char>) -> Option<Prefix>;

/// Calls `<ipnet::IpNet as FromStr>::from_str`. The contract names what the
/// parser reads from the text, and does not say what that is: the result
/// depends on the text alone. A network that the parser gives has a prefix
/// length that its family allows.
#[verifier::external_body]
fn read_net(text: &str) -> (r: Result<Prefix, ipnet::AddrParseError>)
    ensures
        match r {
            Ok(net) => net_of_text(text@) == Some(net),
            Err(_) => net_of_text(text@) is None,
        },
{
    match text.parse::<ipnet::IpNet>()? {
        ipnet::IpNet::V4(net) => Ok(
            Prefix::V4(
                Ipv4Prefix { addr: Ipv4Address(net.addr().into()), prefix_len: net.prefix_len() },
            ),
        ),
        ipnet::IpNet::V6(net) => Ok(
            Prefix::V6(
                Ipv6Prefix { addr: Ipv6Address(net.addr().into()), prefix_len: net.prefix_len() },
            ),
        ),
    }
}

/// A text that is no network.
#[derive(Clone, Copy, Debug, PartialEq, Eq, Structural)]
pub struct NetParseError;

impl Prefix {
    /// Reads a network from a text such as `1.0.1.0/24` or `2001:250::/35`.
    pub fn from_text(text: &str) -> (r: Result<Prefix, NetParseError>)
        ensures
            match net_of_text(text@) {
                Some(net) => r == Ok::<Prefix, NetParseError>(net),
                None => r is Err,
            },
    {
        match read_net(text) {
            Ok(net) => Ok(net),
            Err(_) => Err(NetParseError),
        }
    }
}

/// An IPv4 prefix is made of its address and its length, and of nothing
/// else.
pub proof fn law_ipv4_prefix_parts(p: Ipv4Prefix, addr: Ipv4Address, prefix_len: u8)
    ensures
        Ipv4Prefix::of(p.addr(), p.prefix_len()) == p,
        Ipv4Prefix::of(addr, prefix_len).addr() == addr,
        Ipv4Prefix::of(addr, prefix_len).prefix_len() == prefix_len,
{
}

/// An IPv6 prefix is made of its address and its length, and of nothing
/// else.
pub proof fn law_ipv6_prefix_parts(p: Ipv6Prefix, addr: Ipv6Address, prefix_len: u8)
    ensures
        Ipv6Prefix::of(p.addr(), p.prefix_len()) == p,
        Ipv6Prefix::of(addr, prefix_len).addr() == addr,
        Ipv6Prefix::of(addr, prefix_len).prefix_len() == prefix_len,
{
}

/// A prefix is made of its address and its length, and of nothing else.
pub proof fn law_prefix_parts(p: Prefix, addr: IpAddress, prefix_len: u8)
    ensures
        Prefix::of(p.addr(), p.prefix_len()) == p,
        Prefix::of(addr, prefix_len).addr() == addr,
        Prefix::of(addr, prefix_len).prefix_len() == prefix_len,
{
}

/// Putting the four octets of an address together gives the address.
pub proof fn law_of_octets_of_octet(addr: Ipv4Address)
    ensures
        Ipv4Address::of_octets(addr.octet(0), addr.octet(1), addr.octet(2), addr.octet(3)) == addr,
{
    let x = addr.0;
    assert((x / 0x100_0000) < 0x100 && (x / 0x100_0000) * 0x100_0000 + (x / 0x1_0000 % 0x100)
        * 0x1_0000 + (x / 0x100 % 0x100) * 0x100 + x % 0x100 == x) by (bit_vector);
}

/// The octets of the address `a.b.c.d` are `a`, `b`, `c` and `d`.
pub proof fn law_octet_of_octets(a: u8, b: u8, c: u8, d: u8)
    ensures
        Ipv4Address::of_octets(a, b, c, d).octet(0) == a,
        Ipv4Address::of_octets(a, b, c, d).octet(1) == b,
        Ipv4Address::of_octets(a, b, c, d).octet(2) == c,
        Ipv4Address::of_octets(a, b, c, d).octet(3) == d,
{
    let x: u32 = (a * 0x100_0000 + b * 0x1_0000 + c * 0x100 + d) as u32;
    let (a4, b4, c4, d4) = (a as u32, b as u32, c as u32, d as u32);
    assert(a4 < 0x100 && b4 < 0x100 && c4 < 0x100 && d4 < 0x100 && x == a4 * 0x100_0000 + b4
        * 0x1_0000 + c4 * 0x100 + d4 ==> x / 0x100_0000 == a4 && x / 0x1_0000 % 0x100 == b4 && x
        / 0x100 % 0x100 == c4 && x % 0x100 == d4) by (bit_vector);
}

} // verus!
