//! The sender identity of a captured frame: source address and source port,
//! written as `address:port`.

use crate::text::{decimal, join_numbers, joined, port_text, text_of};
use etherparse::{NetHeaders, PacketHeaders, TransportHeader};
use vstd::prelude::*;

verus! {

/// What the network layer of a decoded frame says about its sender.
#[derive(Clone, Copy, Debug)]
pub enum NetworkLayer {
    /// An IPv4 header, with its source address.
    Ipv4 { source: [u8; 4] },
    /// An IPv6 header.
    Ipv6,
    /// An ARP packet.
    Arp,
    /// No network header was recognised.
    Absent,
}

/// What the transport layer of a decoded frame says about its sender.
#[derive(Clone, Copy, Debug)]
pub enum TransportLayer {
    /// A UDP header, with its source port.
    Udp { source_port: u16 },
    /// A TCP header, with its source port.
    Tcp { source_port: u16 },
    /// A transport header of a kind that has no ports.
    Other,
    /// No transport header was recognised.
    Absent,
}

/// The headers of one decoded frame, as far as the sender identity needs them.
#[derive(Clone, Copy, Debug)]
pub struct FrameHeaders {
    pub network: NetworkLayer,
    pub transport: TransportLayer,
}

/// The headers that `etherparse::PacketHeaders::from_ethernet_slice` reads
/// from `frame`; `None` where it rejects the frame.
pub uninterp spec fn decoded_headers(frame: Seq<u8>) -> Option<FrameHeaders>;

/// The source port named by the transport layer; 0 where it names none.
pub open spec fn source_port(transport: TransportLayer) -> u16 {
    match transport {
        TransportLayer::Udp { source_port } => source_port,
        TransportLayer::Tcp { source_port } => source_port,
        TransportLayer::Other => 0,
        TransportLayer::Absent => 0,
    }
}

/// Dotted decimal notation of an address given by its bytes.
pub open spec fn address_text(source: Seq<u8>) -> Seq<char> {
    joined(source.map_values(|octet: u8| octet as u64), "."@)
}

/// The identity `address:port`.
pub open spec fn identity_text(source: Seq<u8>, port: u16) -> Seq<char> {
    address_text(source) + ":"@ + decimal(port as nat)
}

/// The identity of the sender of a decoded frame: known for IPv4 frames only.
pub open spec fn identity_of(headers: FrameHeaders) -> Option<Seq<char>> {
    match headers.network {
        NetworkLayer::Ipv4 { source } => Some(identity_text(source@, source_port(headers.transport))),
        NetworkLayer::Ipv6 => None,
        NetworkLayer::Arp => None,
        NetworkLayer::Absent => None,
    }
}

/// The identity of the sender of a raw frame; `None` where the frame cannot
/// be decoded or carries no IPv4 header.
pub open spec fn frame_identity(frame: Seq<u8>) -> Option<Seq<char>> {
    match decoded_headers(frame) {
        Some(headers) => identity_of(headers),
        None => None,
    }
}

/// `etherparse::PacketHeaders::from_ethernet_slice`, reduced to the sender's
/// address and port.
///
/// Trusted: the call never panics, its result depends on the bytes of the
/// frame alone, and the fields copied here are those of the headers it
/// returned. Nothing is claimed about which frames it accepts.
#[verifier::external_body]
fn decode_headers(frame: &[u8]) -> (decoded: Option<FrameHeaders>)
    ensures
        decoded == decoded_headers(frame@),
{
    let headers = PacketHeaders::from_ethernet_slice(frame).ok()?;
    let network = match headers.net {
        Some(NetHeaders::Ipv4(ip, _)) => NetworkLayer::Ipv4 { source: ip.source },
        Some(NetHeaders::Ipv6(_, _)) => NetworkLayer::Ipv6,
        Some(NetHeaders::Arp(_)) => NetworkLayer::Arp,
        None => NetworkLayer::Absent,
    };
    let transport = match headers.transport {
        Some(TransportHeader::Udp(udp)) => TransportLayer::Udp { source_port: udp.source_port },
        Some(TransportHeader::Tcp(tcp)) => TransportLayer::Tcp { source_port: tcp.source_port },
        Some(_) => TransportLayer::Other,
        None => TransportLayer::Absent,
    };
    Some(FrameHeaders { network, transport })
}

/// Writes an IPv4 address in dotted decimal notation.
pub fn dotted_address(source: &[u8; 4]) -> (text: String)
    ensures
        text@ == address_text(source@),
{
    let mut octets: Vec<u64> = Vec::new();
    let mut i: usize = 0;
    while i < 4
        invariant
            i <= 4,
            octets@ =~= source@.take(i as int).map_values(|octet: u8| octet as u64),
        decreases 4 - i,
    {
        octets.push(source[i] as u64);
        i += 1;
    }
    assert(source@.take(4) =~= source@);
    join_numbers(&octets, ".")
}

/// The sender identity of a decoded frame.
///
/// An IPv4 frame gives `address:port`, with port 0 where the transport layer
/// is missing or has no ports. Any other frame gives `None`.
pub fn sender_identity(headers: &FrameHeaders) -> (identity: Option<String>)
    ensures
        text_of(identity) == identity_of(*headers),
{
    match &headers.network {
        NetworkLayer::Ipv4 { source } => {
            let port: u16 = match &headers.transport {
                TransportLayer::Udp { source_port } => *source_port,
                TransportLayer::Tcp { source_port } => *source_port,
                TransportLayer::Other => 0,
                TransportLayer::Absent => 0,
            };
            let mut identity = dotted_address(source);
            identity.append(":");
            let port_digits = port_text(port);
            identity.append(port_digits.as_str());
            Some(identity)
        },
        NetworkLayer::Ipv6 => None,
        NetworkLayer::Arp => None,
        NetworkLayer::Absent => None,
    }
}

/// The sender identity of a raw frame, link-layer header included.
///
/// A frame that cannot be decoded is no error: it has no identity.
pub fn extract(frame: &[u8]) -> (identity: Option<String>)
    ensures
        text_of(identity) == frame_identity(frame@),
{
    match decode_headers(frame) {
        Some(headers) => sender_identity(&headers),
        None => None,
    }
}

} // verus!
