//! IPv4 addresses and networks as plain numbers.

use vstd::prelude::*;
use vstd::string::StringExecFns;
use crate::number;
use crate::split;
use crate::text;

verus! {

/// How many addresses a network of this prefix length holds.
pub open spec fn block_size(len: u8) -> int {
    vstd::arithmetic::power2::pow2((32 - len) as nat) as int
}

/// The first address of the network that `addr` lies in.
pub open spec fn network_of(addr: u32, len: u8) -> int {
    (addr as int) - (addr as int) % block_size(len)
}

/// The last address of the network that `addr` lies in.
pub open spec fn broadcast_of(addr: u32, len: u8) -> int {
    network_of(addr, len) + block_size(len) - 1
}

/// An address in dotted decimal form.
pub open spec fn dotted(addr: u32) -> Seq<char> {
    number::decimal((addr / 0x100_0000) as nat) + "."@ + number::decimal(
        (addr / 0x1_0000 % 0x100) as nat,
    ) + "."@ + number::decimal((addr / 0x100 % 0x100) as nat) + "."@ + number::decimal(
        (addr % 0x100) as nat,
    )
}

/// The text of an address.
pub fn ip_text(addr: u32) -> (r: String)
    ensures
        r@ == dotted(addr),
{
    let mut out: String = number::decimal_of((addr / 0x100_0000) as u64);
    out.append(".");
    out.append(number::decimal_of((addr / 0x1_0000 % 0x100) as u64).as_str());
    out.append(".");
    out.append(number::decimal_of((addr / 0x100 % 0x100) as u64).as_str());
    out.append(".");
    out.append(number::decimal_of((addr % 0x100) as u64).as_str());
    out
}

/// The number that a decimal octet without leading zeros stands for.
pub open spec fn octet(s: Seq<char>) -> Option<nat> {
    if 0 < s.len() <= 3 && number::all_digits(s) && (s.len() > 1 ==> s[0] != '0')
        && number::digits_value(s) <= 255 {
        Some(number::digits_value(s))
    } else {
        None
    }
}

/// The address that a dotted decimal text stands for: `Ipv4Addr`'s `FromStr`.
pub open spec fn ip_parsed(s: Seq<char>) -> Option<nat> {
    let p = split::pieces(s, '.');
    if p.len() == 4 && octet(p[0]) is Some && octet(p[1]) is Some && octet(p[2]) is Some && octet(
        p[3],
    ) is Some {
        Some(
            octet(p[0])->0 * 0x100_0000 + octet(p[1])->0 * 0x1_0000 + octet(p[2])->0 * 0x100
                + octet(p[3])->0,
        )
    } else {
        None
    }
}

fn parse_octet(s: &str) -> (r: Option<u32>)
    ensures
        match r {
            Some(n) => octet(s@) == Some(n as nat) && n <= 255,
            None => octet(s@) is None,
        },
{
    let v: Vec<char> = text::to_chars(s);
    if v.len() == 0 || v.len() > 3 || v[0] == '+' || (v.len() > 1 && v[0] == '0') {
        proof {
            if v@.len() > 0 && v@[0] == '+' {
                assert(!number::is_digit(s@[0]));
            }
        }
        return None;
    }
    match number::parse_bounded(s, 255) {
        Some(n) => Some(n as u32),
        None => None,
    }
}

/// Reads a dotted decimal address.
pub fn parse_ip(s: &str) -> (r: Option<u32>)
    ensures
        match r {
            Some(n) => ip_parsed(s@) == Some(n as nat),
            None => ip_parsed(s@) is None,
        },
{
    let p: Vec<String> = split::split(s, '.');
    proof {
        assert(text::views(p@).len() == p@.len());
    }
    if p.len() != 4 {
        return None;
    }
    proof {
        assert(text::views(p@)[0] == p@[0]@);
        assert(text::views(p@)[1] == p@[1]@);
        assert(text::views(p@)[2] == p@[2]@);
        assert(text::views(p@)[3] == p@[3]@);
    }
    match (
        parse_octet(p[0].as_str()),
        parse_octet(p[1].as_str()),
        parse_octet(p[2].as_str()),
        parse_octet(p[3].as_str()),
    ) {
        (Some(a), Some(b), Some(c), Some(d)) => Some(
            a * 0x100_0000 + b * 0x1_0000 + c * 0x100 + d,
        ),
        _ => None,
    }
}

/// `ipnet::Ipv4Net::network`: the address with its host bits cleared.
#[verifier::external_body]
fn ipnet_network(addr: u32, len: u8) -> (r: u32)
    requires
        len <= 32,
    ensures
        r == network_of(addr, len),
{
    u32::from(ipnet::Ipv4Net::new(addr.into(), len).unwrap().network())
}

/// `ipnet::Ipv4Net::broadcast`: the address with its host bits set.
#[verifier::external_body]
fn ipnet_broadcast(addr: u32, len: u8) -> (r: u32)
    requires
        len <= 32,
    ensures
        r == broadcast_of(addr, len),
{
    u32::from(ipnet::Ipv4Net::new(addr.into(), len).unwrap().broadcast())
}

/// The number below `bound` that at most `digits` decimal digits stand for. Zeros may lead.
pub open spec fn short_number(s: Seq<char>, digits: nat, bound: nat) -> Option<nat> {
    if 0 < s.len() <= digits && number::all_digits(s) && number::digits_value(s) < bound {
        Some(number::digits_value(s))
    } else {
        None
    }
}

/// The address and the prefix length of a network in CIDR form: four numbers below 256 between
/// dots, a slash, and a number of at most 32.
pub open spec fn net_parsed(s: Seq<char>) -> Option<(u32, u8)> {
    let halves = split::pieces(s, '/');
    let p = split::pieces(halves[0], '.');
    if halves.len() == 2 && p.len() == 4 && (forall|i: int|
        0 <= i < 4 ==> short_number(#[trigger] p[i], 3, 256) is Some) && short_number(
        halves[1],
        2,
        33,
    ) is Some {
        Some(
            (
                (short_number(p[0], 3, 256)->0 * 0x100_0000 + short_number(p[1], 3, 256)->0
                    * 0x1_0000 + short_number(p[2], 3, 256)->0 * 0x100 + short_number(
                    p[3],
                    3,
                    256,
                )->0) as u32,
                short_number(halves[1], 2, 33)->0 as u8,
            ),
        )
    } else {
        None
    }
}

/// `ipnet::Ipv4Net`'s `FromStr`: the address and prefix length of a network in CIDR form.
#[verifier::external_body]
fn ipnet_parse(s: &str) -> (r: Option<(u32, u8)>)
    ensures
        r == net_parsed(s@),
{
    match s.parse::<ipnet::Ipv4Net>() {
        Ok(net) => Some((u32::from(net.addr()), net.prefix_len())),
        Err(_) => None,
    }
}

/// An IPv4 network: an address (host bits allowed) and a prefix length.
#[derive(Clone, Copy, Debug, PartialEq, Eq, Structural)]
pub struct Ipv4Net {
    addr: u32,
    len: u8,
}

impl Ipv4Net {
    #[verifier::type_invariant]
    spec fn valid(self) -> bool {
        self.len <= 32
    }

    /// The address as given.
    pub closed spec fn ip(self) -> u32 {
        self.addr
    }

    /// The prefix length.
    pub closed spec fn prefix(self) -> u8 {
        self.len
    }

    /// The network of this address and prefix length.
    pub closed spec fn make(addr: u32, len: u8) -> Self {
        Ipv4Net { addr, len }
    }

    /// The first address.
    pub open spec fn base(self) -> int {
        network_of(self.ip(), self.prefix())
    }

    /// The last address.
    pub open spec fn top(self) -> int {
        broadcast_of(self.ip(), self.prefix())
    }

    /// The text of the network in CIDR form.
    pub open spec fn cidr(self) -> Seq<char> {
        dotted(self.ip()) + "/"@ + number::decimal(self.prefix() as nat)
    }

    /// Whether the address `a` lies in the network.
    pub open spec fn holds(self, a: int) -> bool {
        self.base() <= a <= self.top()
    }

    pub fn new(addr: u32, len: u8) -> (r: Option<Self>)
        ensures
            r is Some <==> len <= 32,
            r matches Some(n) ==> n == Self::make(addr, len),
    {
        if len <= 32 {
            Some(Ipv4Net { addr, len })
        } else {
            None
        }
    }

    pub fn parse(s: &str) -> (r: Option<Self>)
        ensures
            match r {
                Some(n) => net_parsed(s@) == Some((n.ip(), n.prefix())),
                None => net_parsed(s@) is None,
            },
    {
        match ipnet_parse(s) {
            Some((addr, len)) => Some(Ipv4Net { addr, len }),
            None => None,
        }
    }

    pub fn addr(&self) -> (r: u32)
        ensures
            r == self.ip(),
    {
        self.addr
    }

    pub fn prefix_len(&self) -> (r: u8)
        ensures
            r == self.prefix(),
            r <= 32,
    {
        proof {
            use_type_invariant(self);
        }
        self.len
    }

    pub fn network(&self) -> (r: u32)
        ensures
            r == self.base(),
    {
        proof {
            use_type_invariant(self);
        }
        ipnet_network(self.addr, self.len)
    }

    pub fn broadcast(&self) -> (r: u32)
        ensures
            r == self.top(),
    {
        proof {
            use_type_invariant(self);
        }
        ipnet_broadcast(self.addr, self.len)
    }

    pub fn contains(&self, a: u32) -> (r: bool)
        ensures
            r == self.holds(a as int),
    {
        let lo: u32 = self.network();
        let hi: u32 = self.broadcast();
        lo <= a && a <= hi
    }

    pub fn text(&self) -> (r: String)
        ensures
            r@ == self.cidr(),
    {
        let mut out: String = ip_text(self.addr);
        out.append("/");
        out.append(number::decimal_of(self.len as u64).as_str());
        out
    }
}

pub broadcast proof fn make_parts(addr: u32, len: u8)
    ensures
        (#[trigger] Ipv4Net::make(addr, len)).ip() == addr,
        Ipv4Net::make(addr, len).prefix() == len,
{
}

/// Networks are equal when their addresses and prefix lengths are.
pub proof fn same_net(a: Ipv4Net, b: Ipv4Net)
    ensures
        (a.ip() == b.ip() && a.prefix() == b.prefix()) <==> a == b,
{
}

/// A block is a power of two of at least one address and at most the whole space.
pub proof fn block_size_bounds(len: u8)
    requires
        len <= 32,
    ensures
        1 <= block_size(len) <= 0x1_0000_0000,
        len > 0 ==> block_size(len) <= 0x8000_0000,
{
    vstd::arithmetic::power2::lemma2_to64();
    vstd::arithmetic::power2::lemma_pow2_pos((32 - len) as nat);
    if 0 < len {
        vstd::arithmetic::power2::lemma_pow2_strictly_increases((32 - len) as nat, 32);
        if 1 < len {
            vstd::arithmetic::power2::lemma_pow2_strictly_increases((32 - len) as nat, 31);
        }
    }
}

/// The distance between neighbouring networks of this prefix length.
pub fn block(len: u8) -> (r: u32)
    requires
        0 < len <= 32,
    ensures
        r == block_size(len),
{
    proof {
        block_size_bounds(len);
        vstd::bits::lemma_u32_shl_is_mul(1, (32 - len) as u32);
    }
    1u32 << (32 - len as u32)
}

} // verus!
