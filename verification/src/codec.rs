//! Wire-format encoding and decoding for the SOCKS5 address and reply
//! formats: address-type tags, big-endian ports, and the fixed reply frame.

use vstd::prelude::*;

verus! {

/// The protocol version byte carried by every SOCKS5 message.
pub const SOCKS_VERSION: u8 = 0x05;
/// The "no authentication required" method identifier.
pub const NO_AUTHENTICATION: u8 = 0x00;
/// The method-selection reply byte for "no acceptable methods".
pub const NO_ACCEPTABLE_METHODS: u8 = 0xFF;
/// The CONNECT command byte.
pub const CONNECT_COMMAND: u8 = 0x01;
/// The reserved byte, always zero on the wire.
pub const RSV: u8 = 0x00;

/// Address-type tag for a 4-byte IPv4 address.
pub const ATYP_IPV4: u8 = 0x01;
/// Address-type tag for a length-prefixed domain name.
pub const ATYP_DOMAIN: u8 = 0x03;
/// Address-type tag for a 16-byte IPv6 address.
pub const ATYP_IPV6: u8 = 0x04;

/// Reply code: request succeeded.
pub const REP_SUCCEEDED: u8 = 0x00;
/// Reply code: general server failure.
pub const REP_GENERAL_FAILURE: u8 = 0x01;
/// Reply code: host unreachable.
pub const REP_HOST_UNREACHABLE: u8 = 0x04;
/// Reply code: connection refused by the target.
pub const REP_CONNECTION_REFUSED: u8 = 0x05;
/// Reply code: TTL expired (used for connect timeouts).
pub const REP_TTL_EXPIRED: u8 = 0x06;

/// The 16-bit value carried by two big-endian port bytes.
pub open spec fn port_value(hi: u8, lo: u8) -> int {
    hi * 256 + lo
}

/// The two big-endian bytes of a 16-bit port.
pub open spec fn be16(port: u16) -> Seq<u8> {
    seq![(port / 256) as u8, (port % 256) as u8]
}

/// Assembles a 16-bit port from its two big-endian wire bytes.
pub fn port_from_be(hi: u8, lo: u8) -> (port: u16)
    ensures
        port == port_value(hi, lo),
{
    (hi as u16) * 256 + (lo as u16)
}

/// An IP address as it appears in a reply's bind-address field: the raw
/// 4-byte or 16-byte form. Domain names never appear in replies.
#[derive(Debug)]
pub enum BindIp {
    V4(Vec<u8>),
    V6(Vec<u8>),
}

impl BindIp {
    /// A bind IP is well formed when it holds exactly the wire-format byte
    /// count of its family.
    pub open spec fn wf(&self) -> bool {
        match self {
            BindIp::V4(b) => b@.len() == 4,
            BindIp::V6(b) => b@.len() == 16,
        }
    }

    /// The address-type tag this IP is encoded under.
    pub open spec fn atyp(&self) -> u8 {
        match self {
            BindIp::V4(_) => ATYP_IPV4,
            BindIp::V6(_) => ATYP_IPV6,
        }
    }

    /// The raw address bytes as they go on the wire.
    pub open spec fn bytes(&self) -> Seq<u8> {
        match self {
            BindIp::V4(b) => b@,
            BindIp::V6(b) => b@,
        }
    }
}

/// The socket address bound into a SOCKS5 reply: an IP and a port.
#[derive(Debug)]
pub struct BindAddr {
    pub ip: BindIp,
    pub port: u16,
}

impl BindAddr {
    /// Well formed when the IP holds its family's byte count.
    pub open spec fn wf(&self) -> bool {
        self.ip.wf()
    }
}

/// What a domain name's raw wire bytes decode to, character for character,
/// under lossy UTF-8 decoding.
pub uninterp spec fn lossy_of(b: Seq<u8>) -> Seq<char>;

/// Relies on String::from_utf8_lossy: the result depends on the input
/// bytes alone, replacing invalid UTF-8 sequences with the replacement
/// character.
#[verifier::external_body]
fn utf8_lossy(b: &Vec<u8>) -> (r: String)
    ensures
        r@ == lossy_of(b@),
{
    String::from_utf8_lossy(b).into_owned()
}

/// A decoded target address: raw IPv4 or IPv6 octets, or a lossily
/// decoded domain name awaiting resolution.
#[derive(Debug, PartialEq, Eq)]
pub enum HostAddr {
    Ipv4(Vec<u8>),
    Ipv6(Vec<u8>),
    Domain(String),
}

impl HostAddr {
    /// Well formed when a raw address holds its family's byte count.
    pub open spec fn wf(&self) -> bool {
        match self {
            HostAddr::Ipv4(b) => b@.len() == 4,
            HostAddr::Ipv6(b) => b@.len() == 16,
            HostAddr::Domain(_) => true,
        }
    }
}

/// Decodes the address bytes read under a supported address-type byte:
/// the raw octets of an IPv4 or IPv6 address, or the lossily decoded
/// characters of a domain name. Other address-type values are rejected
/// before any address byte is read, so none reaches this point.
pub fn decode_address(atyp: u8, addr_bytes: &Vec<u8>) -> (addr: HostAddr)
    requires
        atyp == ATYP_IPV4 || atyp == ATYP_DOMAIN || atyp == ATYP_IPV6,
        atyp == ATYP_IPV4 ==> addr_bytes@.len() == 4,
        atyp == ATYP_IPV6 ==> addr_bytes@.len() == 16,
    ensures
        addr.wf(),
        atyp == ATYP_IPV4 ==> (addr matches HostAddr::Ipv4(b) && b@ == addr_bytes@),
        atyp == ATYP_IPV6 ==> (addr matches HostAddr::Ipv6(b) && b@ == addr_bytes@),
        atyp == ATYP_DOMAIN ==> (addr matches HostAddr::Domain(d) && d@ == lossy_of(addr_bytes@)),
{
    if atyp == ATYP_IPV4 {
        HostAddr::Ipv4(copy_bytes(addr_bytes))
    } else if atyp == ATYP_IPV6 {
        HostAddr::Ipv6(copy_bytes(addr_bytes))
    } else {
        HostAddr::Domain(utf8_lossy(addr_bytes))
    }
}

/// A fresh vector holding the same bytes.
fn copy_bytes(src: &Vec<u8>) -> (r: Vec<u8>)
    ensures
        r@ == src@,
{
    let mut r: Vec<u8> = Vec::new();
    push_bytes(&mut r, src);
    proof {
        assert(r@ =~= src@);
    }
    r
}

/// The octets of the unspecified IPv4 address `0.0.0.0`, used in failure
/// replies when no local address is known.
pub open spec fn unspecified_bytes() -> Seq<u8> {
    seq![0u8, 0u8, 0u8, 0u8]
}

/// The full wire form of a SOCKS5 reply bound to `addr`: version, reply
/// code, reserved zero, address type, raw address bytes, big-endian port.
pub open spec fn spec_reply(rep: u8, atyp: u8, addr_bytes: Seq<u8>, port: u16) -> Seq<u8> {
    seq![SOCKS_VERSION, rep, RSV, atyp] + addr_bytes + be16(port)
}

/// The wire form of a failure reply bound to the unspecified address
/// `0.0.0.0:0`.
pub open spec fn spec_failure_reply(rep: u8) -> Seq<u8> {
    spec_reply(rep, ATYP_IPV4, unspecified_bytes(), 0)
}

/// Appends every byte of `src` to `dst`, in order.
pub fn push_bytes(dst: &mut Vec<u8>, src: &Vec<u8>)
    ensures
        final(dst)@ == old(dst)@ + src@,
{
    let mut i: usize = 0;
    while i < src.len()
        invariant
            i <= src.len(),
            dst@ == old(dst)@ + src@.take(i as int),
        decreases src.len() - i,
    {
        dst.push(src[i]);
        i = i + 1;
        proof {
            assert(dst@ =~= old(dst)@ + src@.take(i as int));
        }
    }
    proof {
        assert(dst@ =~= old(dst)@ + src@);
    }
}

/// The unspecified `0.0.0.0:0` bind address, used in failure replies.
pub fn unspecified_addr() -> (addr: BindAddr)
    ensures
        addr.wf(),
        addr.ip.atyp() == ATYP_IPV4,
        addr.ip.bytes() == unspecified_bytes(),
        addr.port == 0,
{
    let mut b: Vec<u8> = Vec::new();
    b.push(0);
    b.push(0);
    b.push(0);
    b.push(0);
    proof {
        assert(b@ =~= unspecified_bytes());
    }
    BindAddr { ip: BindIp::V4(b), port: 0 }
}

/// Appends the wire encoding of a literal IP address: its address-type
/// byte followed by its 4 or 16 raw octets. The inverse of decoding;
/// domain names are never re-encoded in replies.
pub fn encode_address(ip: &BindIp, out: &mut Vec<u8>)
    ensures
        final(out)@ == old(out)@ + seq![ip.atyp()] + ip.bytes(),
{
    match ip {
        BindIp::V4(b) => {
            out.push(ATYP_IPV4);
            push_bytes(out, b);
        }
        BindIp::V6(b) => {
            out.push(ATYP_IPV6);
            push_bytes(out, b);
        }
    }
    proof {
        assert(out@ =~= old(out)@ + seq![ip.atyp()] + ip.bytes());
    }
}

/// Encodes the fixed-format SOCKS5 reply for reply code `rep` bound to
/// `addr`: `VER REP RSV ATYP BND.ADDR BND.PORT`, the port big-endian.
pub fn encode_reply(rep: u8, addr: &BindAddr) -> (r: Vec<u8>)
    requires
        addr.wf(),
    ensures
        r@ == spec_reply(rep, addr.ip.atyp(), addr.ip.bytes(), addr.port),
{
    let mut r: Vec<u8> = Vec::new();
    r.push(SOCKS_VERSION);
    r.push(rep);
    r.push(RSV);
    encode_address(&addr.ip, &mut r);
    r.push((addr.port / 256) as u8);
    r.push((addr.port % 256) as u8);
    proof {
        assert(r@ =~= spec_reply(rep, addr.ip.atyp(), addr.ip.bytes(), addr.port));
    }
    r
}

} // verus!
