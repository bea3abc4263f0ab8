//! The SOCKS5 reply message: reply codes, reply addresses and their bytes.

use socks5_proto::{Address as ProtoAddress, Reply as ProtoReply, Response};
use vstd::prelude::*;

verus! {

/// Reply field of a SOCKS5 reply message.
#[derive(Clone, Copy, Debug, PartialEq, Eq, Structural)]
pub enum Reply {
    Succeeded,
    GeneralFailure,
    ConnectionNotAllowed,
    NetworkUnreachable,
    HostUnreachable,
    ConnectionRefused,
    TtlExpired,
    CommandNotSupported,
    AddressTypeNotSupported,
}

impl Reply {
    /// The byte that stands for this reply on the wire.
    pub open spec fn spec_code(self) -> u8 {
        match self {
            Reply::Succeeded => 0x00,
            Reply::GeneralFailure => 0x01,
            Reply::ConnectionNotAllowed => 0x02,
            Reply::NetworkUnreachable => 0x03,
            Reply::HostUnreachable => 0x04,
            Reply::ConnectionRefused => 0x05,
            Reply::TtlExpired => 0x06,
            Reply::CommandNotSupported => 0x07,
            Reply::AddressTypeNotSupported => 0x08,
        }
    }

    pub fn code(&self) -> (r: u8)
        ensures
            r == self.spec_code(),
            r <= 8,
    {
        match self {
            Reply::Succeeded => 0x00,
            Reply::GeneralFailure => 0x01,
            Reply::ConnectionNotAllowed => 0x02,
            Reply::NetworkUnreachable => 0x03,
            Reply::HostUnreachable => 0x04,
            Reply::ConnectionRefused => 0x05,
            Reply::TtlExpired => 0x06,
            Reply::CommandNotSupported => 0x07,
            Reply::AddressTypeNotSupported => 0x08,
        }
    }
}

/// Address carried by a reply: an IPv4 or IPv6 socket address, or a domain
/// name with a port.
#[derive(Clone, Debug)]
pub enum Address {
    Ipv4([u8; 4], u16),
    Ipv6([u16; 8], u16),
    Domain(Vec<u8>, u16),
}

/// Mathematical value of an [`Address`].
pub enum AddressView {
    Ipv4(Seq<u8>, u16),
    Ipv6(Seq<u16>, u16),
    Domain(Seq<u8>, u16),
}

impl View for Address {
    type V = AddressView;

    open spec fn view(&self) -> AddressView {
        match self {
            Address::Ipv4(ip, port) => AddressView::Ipv4(ip@, *port),
            Address::Ipv6(segments, port) => AddressView::Ipv6(segments@, *port),
            Address::Domain(name, port) => AddressView::Domain(name@, *port),
        }
    }
}

impl AddressView {
    /// Lengths that the types of [`Address`] give.
    pub open spec fn well_formed(self) -> bool {
        match self {
            AddressView::Ipv4(ip, _) => ip.len() == 4,
            AddressView::Ipv6(segments, _) => segments.len() == 8,
            AddressView::Domain(_, _) => true,
        }
    }

    /// The address fits the wire format: a domain name's length must fit
    /// in its one-byte length field.
    pub open spec fn encodable(self) -> bool {
        &&& self.well_formed()
        &&& match self {
            AddressView::Domain(name, _) => name.len() <= 255,
            _ => true,
        }
    }
}

pub open spec fn be16(x: u16) -> Seq<u8> {
    seq![(x / 256) as u8, (x % 256) as u8]
}

pub open spec fn be16_value(hi: u8, lo: u8) -> u16 {
    (hi as int * 256 + lo as int) as u16
}

/// The sixteen bytes of an IPv6 address given as eight segments, each
/// segment big-endian.
pub open spec fn ipv6_bytes(segments: Seq<u16>) -> Seq<u8> {
    Seq::new(
        16,
        |i: int|
            if i % 2 == 0 {
                (segments[i / 2] / 256) as u8
            } else {
                (segments[i / 2] % 256) as u8
            },
    )
}

pub const ATYP_IPV4: u8 = 0x01;

pub const ATYP_DOMAIN: u8 = 0x03;

pub const ATYP_IPV6: u8 = 0x04;

pub const SOCKS_VERSION: u8 = 0x05;

/// Address type byte, address and big-endian port.
pub open spec fn address_wire(a: AddressView) -> Seq<u8> {
    match a {
        AddressView::Ipv4(ip, port) => seq![ATYP_IPV4] + ip + be16(port),
        AddressView::Ipv6(segments, port) => seq![ATYP_IPV6] + ipv6_bytes(segments) + be16(port),
        AddressView::Domain(name, port) => seq![ATYP_DOMAIN, name.len() as u8] + name + be16(
            port,
        ),
    }
}

/// A whole reply message: version, reply code, a reserved zero byte, then
/// the address.
pub open spec fn reply_wire(code: u8, a: AddressView) -> Seq<u8> {
    seq![SOCKS_VERSION, code, 0u8] + address_wire(a)
}

/// Reads an address field that takes up all of `s`.
pub open spec fn parse_address(s: Seq<u8>) -> Option<AddressView> {
    if s.len() == 7 && s[0] == ATYP_IPV4 {
        Some(AddressView::Ipv4(s.subrange(1, 5), be16_value(s[5], s[6])))
    } else if s.len() == 19 && s[0] == ATYP_IPV6 {
        Some(
            AddressView::Ipv6(
                Seq::new(8, |j: int| be16_value(s[1 + 2 * j], s[2 + 2 * j])),
                be16_value(s[17], s[18]),
            ),
        )
    } else if s.len() >= 2 && s[0] == ATYP_DOMAIN && s.len() == s[1] + 4 {
        Some(
            AddressView::Domain(
                s.subrange(2, s.len() - 2),
                be16_value(s[s.len() - 2], s[s.len() - 1]),
            ),
        )
    } else {
        None
    }
}

/// Reads a reply message that takes up all of `s`: its reply code and address.
pub open spec fn parse_reply(s: Seq<u8>) -> Option<(u8, AddressView)> {
    if s.len() >= 3 && s[0] == SOCKS_VERSION && s[2] == 0 {
        match parse_address(s.subrange(3, s.len() as int)) {
            Some(a) => Some((s[1], a)),
            None => None,
        }
    } else {
        None
    }
}

/// Relies on socks5_proto::Response::write_to_buf: version, reply code, a
/// zero byte, the address type, the address and the big-endian port. The
/// reply code comes from socks5_proto's `Reply::try_from`, which takes
/// exactly the bytes 0 to 8.
#[verifier::external_body]
fn encode_reply(code: u8, addr: &Address) -> (r: Vec<u8>)
    requires
        code <= 8,
        addr@.encodable(),
    ensures
        r@ == reply_wire(code, addr@),
{
    let address = match addr {
        Address::Ipv4(ip, port) => ProtoAddress::SocketAddress((*ip, *port).into()),
        Address::Ipv6(segments, port) => ProtoAddress::SocketAddress((*segments, *port).into()),
        Address::Domain(name, port) => ProtoAddress::DomainAddress(name.clone(), *port),
    };
    let reply = ProtoReply::try_from(code).unwrap();
    let mut buf = Vec::new();
    Response::new(reply, address).write_to_buf(&mut buf);
    buf
}

/// The bytes of the reply message for `reply` and `addr`, or `None` where
/// the address cannot be written (a domain name over 255 bytes).
pub fn reply_message(reply: Reply, addr: &Address) -> (r: Option<Vec<u8>>)
    ensures
        r is Some <==> addr@.encodable(),
        r matches Some(m) ==> m@ == reply_wire(reply.spec_code(), addr@),
{
    if let Address::Domain(name, _) = addr {
        if name.len() > 255 {
            return None;
        }
    }
    Some(encode_reply(reply.code(), addr))
}

proof fn lemma_be16_round_trip(x: u16)
    ensures
        be16_value((x / 256) as u8, (x % 256) as u8) == x,
{
}

/// Every encodable address comes back, with its reply code, from the bytes
/// of its reply message.
pub proof fn lemma_reply_round_trip(code: u8, a: AddressView)
    requires
        a.encodable(),
    ensures
        parse_reply(reply_wire(code, a)) == Some((code, a)),
{
    let s = reply_wire(code, a);
    let rest = s.subrange(3, s.len() as int);
    assert(rest =~= address_wire(a));
    match a {
        AddressView::Ipv4(ip, port) => {
            lemma_be16_round_trip(port);
            assert(rest.subrange(1, 5) =~= ip);
        },
        AddressView::Ipv6(segments, port) => {
            lemma_be16_round_trip(port);
            let back = Seq::new(8, |j: int| be16_value(rest[1 + 2 * j], rest[2 + 2 * j]));
            assert forall|j: int| 0 <= j < 8 implies back[j] == segments[j] by {
                lemma_be16_round_trip(segments[j]);
                assert((2 * j) / 2 == j);
                assert((2 * j + 1) / 2 == j);
            }
            assert(back =~= segments);
        },
        AddressView::Domain(name, port) => {
            lemma_be16_round_trip(port);
            assert(rest.subrange(2, rest.len() - 2) =~= name);
        },
    }
}

} // verus!
