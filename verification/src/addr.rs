//! Peer network addresses: the tagged wire encoding, the canonicalization
//! of mapped IPv4 addresses on decode, and the deliberately non-structural
//! equality used to deduplicate peers.
use crate::global::{ChainTypes, GlobalState};
use crate::ser;
use crate::ser::{be16, be16_val, be64, be64_val};
use crate::types::Error;
use vstd::prelude::*;
use vstd::string::StrSliceExecFns;
use vstd::string::StringSliceAdditionalSpecFns;
use vstd::utf8::{decode_utf8, encode_utf8, valid_utf8};

verus! {

/// The network address a peer advertises and is dialed at.
#[derive(Clone, Debug)]
pub enum PeerAddr {
    /// An IPv4 address with its port.
    Ipv4 {
        /// The four address octets.
        addr: [u8; 4],
        /// The TCP port.
        port: u16,
    },
    /// An IPv6 address with its port.
    Ipv6 {
        /// The eight 16-bit address segments.
        segs: [u16; 8],
        /// The TCP port.
        port: u16,
    },
    /// A Tor onion service address.
    Onion(String),
}

/// The mathematical shape of a peer address, as the contracts speak of it.
pub ghost enum AddrView {
    /// An IPv4 address: four octets and a port.
    Ipv4 { addr: Seq<u8>, port: u16 },
    /// An IPv6 address: eight 16-bit segments and a port.
    Ipv6 { segs: Seq<u16>, port: u16 },
    /// An onion address: the characters of the service name.
    Onion { host: Seq<char> },
}

impl View for PeerAddr {
    type V = AddrView;

    open spec fn view(&self) -> AddrView {
        match self {
            PeerAddr::Ipv4 { addr, port } => AddrView::Ipv4 { addr: addr@, port: *port },
            PeerAddr::Ipv6 { segs, port } => AddrView::Ipv6 { segs: segs@, port: *port },
            PeerAddr::Onion(host) => AddrView::Onion { host: host@ },
        }
    }
}

impl AddrView {
    /// Shape of every address the executable type can hold: four octets
    /// or eight segments.
    pub open spec fn wf(self) -> bool {
        match self {
            AddrView::Ipv4 { addr, .. } => addr.len() == 4,
            AddrView::Ipv6 { segs, .. } => segs.len() == 8,
            AddrView::Onion { .. } => true,
        }
    }
}

/// Longest onion service name, in encoded bytes, accepted on the wire;
/// an oversized advertisement is a protocol violation.
pub const MAX_ONION_BYTES: usize = 100;

/// Whether an address can be encoded at all: only an onion name of more
/// than 100 bytes is refused.
pub open spec fn encodable(a: AddrView) -> bool {
    match a {
        AddrView::Onion { host } => encode_utf8(host).len() <= MAX_ONION_BYTES,
        _ => true,
    }
}

/// The big-endian bytes of eight IPv6 segments.
pub open spec fn segs_bytes(segs: Seq<u16>) -> Seq<u8> {
    be16(segs[0]) + be16(segs[1]) + be16(segs[2]) + be16(segs[3]) + be16(segs[4]) + be16(segs[5])
        + be16(segs[6]) + be16(segs[7])
}

/// The wire encoding of an address: a tag byte, then the address body,
/// then the port where one applies. Tag 0 is IPv4, tag 1 IPv6, tag 2 a
/// length-prefixed onion name in UTF-8.
pub open spec fn spec_encode(a: AddrView) -> Seq<u8> {
    match a {
        AddrView::Ipv4 { addr, port } => seq![0u8] + addr + be16(port),
        AddrView::Ipv6 { segs, port } => seq![1u8] + segs_bytes(segs) + be16(port),
        AddrView::Onion { host } => seq![2u8] + be64(encode_utf8(host).len() as u64) + encode_utf8(
            host,
        ),
    }
}

/// Whether eight segments are an IPv4-compatible (first six zero) or
/// IPv4-mapped (first five zero, sixth all-ones) IPv6 address, whose
/// embedded IPv4 address the decoder folds out.
pub open spec fn is_v4_in_v6(segs: Seq<u16>) -> bool {
    segs[0] == 0 && segs[1] == 0 && segs[2] == 0 && segs[3] == 0 && segs[4] == 0 && (segs[5] == 0
        || segs[5] == 0xffff)
}

/// The canonical form of a decoded address: an IPv6 address carrying an
/// embedded IPv4 one folds down to the IPv4 variant, so that two wire
/// forms of the same host compare equal after decode.
pub open spec fn canonical(a: AddrView) -> AddrView {
    match a {
        AddrView::Ipv6 { segs, port } => if is_v4_in_v6(segs) {
            AddrView::Ipv4 {
                addr: seq![
                    (segs[6] >> 8) as u8,
                    segs[6] as u8,
                    (segs[7] >> 8) as u8,
                    segs[7] as u8,
                ],
                port,
            }
        } else {
            a
        },
        _ => a,
    }
}

/// The address read from the wire at the given position, with the
/// position just past it; `None` when the input is too short. Tags 0 and
/// 1 are IPv4 and IPv6 (the latter canonicalized); any other tag is read
/// as an onion name, whose payload decodes to the empty name when it is
/// not valid UTF-8, so that one malformed peer-supplied field does not
/// poison the rest of the stream.
pub open spec fn spec_read(b: Seq<u8>, pos: int) -> Option<(AddrView, int)> {
    if !(0 <= pos < b.len()) {
        None
    } else {
        let tag = b[pos];
        if tag == 0 {
            if pos + 7 <= b.len() {
                Some(
                    (
                        AddrView::Ipv4 {
                            addr: b.subrange(pos + 1, pos + 5),
                            port: be16_val(b[pos + 5], b[pos + 6]),
                        },
                        pos + 7,
                    ),
                )
            } else {
                None
            }
        } else if tag == 1 {
            if pos + 19 <= b.len() {
                let segs = Seq::new(8, |i: int| be16_val(b[pos + 1 + 2 * i], b[pos + 2 + 2 * i]));
                let port = be16_val(b[pos + 17], b[pos + 18]);
                Some((canonical(AddrView::Ipv6 { segs, port }), pos + 19))
            } else {
                None
            }
        } else {
            if pos + 9 <= b.len() {
                let len = be64_val(b.subrange(pos + 1, pos + 9)) as int;
                if pos + 9 + len <= b.len() {
                    let payload = b.subrange(pos + 9, pos + 9 + len);
                    let host = if valid_utf8(payload) {
                        decode_utf8(payload)
                    } else {
                        Seq::empty()
                    };
                    Some((AddrView::Onion { host }, pos + 9 + len))
                } else {
                    None
                }
            } else {
                None
            }
        }
    }
}

/// Relies on String::from_utf8: `Ok` exactly on valid UTF-8 input, and
/// the returned string decodes those same bytes.
#[verifier::external_body]
fn string_from_utf8(bytes: Vec<u8>) -> (r: Option<String>)
    ensures
        match r {
            Some(s) => valid_utf8(bytes@) && s@ == decode_utf8(bytes@),
            None => !valid_utf8(bytes@),
        },
{
    String::from_utf8(bytes).ok()
}

impl PeerAddr {
    /// Encode the address for the wire. Fails, reporting the length, only
    /// on an onion name longer than 100 bytes; such an advertisement is
    /// refused rather than truncated.
    pub fn encode(&self) -> (r: Result<Vec<u8>, ser::Error>)
        ensures
            match r {
                Ok(v) => encodable(self@) && v@ == spec_encode(self@),
                Err(e) => !encodable(self@) && e matches ser::Error::TooLargeWriteErr(_),
            },
    {
        let mut out: Vec<u8> = Vec::new();
        match self {
            PeerAddr::Ipv4 { addr, port } => {
                out.push(0u8);
                out.push(addr[0]);
                out.push(addr[1]);
                out.push(addr[2]);
                out.push(addr[3]);
                ser::write_u16_be(&mut out, *port);
                proof {
                    assert(out@ =~= spec_encode(self@));
                }
                Ok(out)
            },
            PeerAddr::Ipv6 { segs, port } => {
                out.push(1u8);
                let mut i: usize = 0;
                while i < 8
                    invariant
                        i <= 8,
                        segs@.len() == 8,
                        out@ == seq![1u8] + partial_segs_bytes(segs@, i as int),
                    decreases 8 - i,
                {
                    ser::write_u16_be(&mut out, segs[i]);
                    i += 1;
                    proof {
                        assert(out@ =~= seq![1u8] + partial_segs_bytes(segs@, i as int));
                    }
                }
                ser::write_u16_be(&mut out, *port);
                proof {
                    reveal_with_fuel(partial_segs_bytes, 9);
                    assert(partial_segs_bytes(segs@, 8) =~= segs_bytes(segs@));
                    assert(out@ =~= spec_encode(self@));
                }
                Ok(out)
            },
            PeerAddr::Onion(host) => {
                let bytes: Vec<u8> = host.as_str().as_bytes_vec();
                if bytes.len() > MAX_ONION_BYTES {
                    return Err(
                        ser::Error::TooLargeWriteErr(
                            "unreasonably long onion address".to_owned(),
                        ),
                    );
                }
                out.push(2u8);
                ser::write_u64_be(&mut out, bytes.len() as u64);
                let mut i: usize = 0;
                while i < bytes.len()
                    invariant
                        i <= bytes@.len(),
                        out@ == seq![2u8] + be64(bytes@.len() as u64) + bytes@.take(i as int),
                    decreases bytes@.len() - i,
                {
                    out.push(bytes[i]);
                    i += 1;
                    proof {
                        assert(out@ =~= seq![2u8] + be64(bytes@.len() as u64) + bytes@.take(
                            i as int,
                        ));
                    }
                }
                proof {
                    assert(bytes@.take(bytes@.len() as int) =~= bytes@);
                    assert(out@ =~= spec_encode(self@));
                }
                Ok(out)
            },
        }
    }
}

/// The big-endian bytes of the first `i` IPv6 segments.
pub open spec fn partial_segs_bytes(segs: Seq<u16>, i: int) -> Seq<u8>
    decreases i,
{
    if i <= 0 {
        Seq::empty()
    } else {
        partial_segs_bytes(segs, i - 1) + be16(segs[i - 1])
    }
}

impl PeerAddr {
    /// Decode an address at the given position, returning it with the
    /// position just past it. Fails only when the input ends early. Tags
    /// 0 and 1 reconstruct the IP variants — an IPv6 address embedding an
    /// IPv4 one folds down to the IPv4 variant — and any other tag reads
    /// a length-prefixed onion name, malformed UTF-8 decoding defensively
    /// to the empty name.
    pub fn read(data: &[u8], pos: usize) -> (r: Result<(PeerAddr, usize), ser::Error>)
        ensures
            match r {
                Ok(p) => spec_read(data@, pos as int) == Some((p.0@, p.1 as int)),
                Err(e) => spec_read(data@, pos as int) is None && e matches
                    ser::Error::UnexpectedEof,
            },
    {
        if pos >= data.len() {
            return Err(ser::Error::UnexpectedEof);
        }
        let tag = data[pos];
        if tag == 0 {
            if data.len() - pos < 7 {
                return Err(ser::Error::UnexpectedEof);
            }
            let addr = [data[pos + 1], data[pos + 2], data[pos + 3], data[pos + 4]];
            let port = ser::read_u16_be(data, pos + 5);
            proof {
                assert(addr@ =~= data@.subrange(pos + 1, pos + 5));
            }
            Ok((PeerAddr::Ipv4 { addr, port }, pos + 7))
        } else if tag == 1 {
            if data.len() - pos < 19 {
                return Err(ser::Error::UnexpectedEof);
            }
            let s0 = ser::read_u16_be(data, pos + 1);
            let s1 = ser::read_u16_be(data, pos + 3);
            let s2 = ser::read_u16_be(data, pos + 5);
            let s3 = ser::read_u16_be(data, pos + 7);
            let s4 = ser::read_u16_be(data, pos + 9);
            let s5 = ser::read_u16_be(data, pos + 11);
            let s6 = ser::read_u16_be(data, pos + 13);
            let s7 = ser::read_u16_be(data, pos + 15);
            let port = ser::read_u16_be(data, pos + 17);
            let ghost segs_spec = Seq::new(
                8,
                |i: int| be16_val(data@[pos + 1 + 2 * i], data@[pos + 2 + 2 * i]),
            );
            proof {
                assert(seq![s0, s1, s2, s3, s4, s5, s6, s7] =~= segs_spec);
            }
            if s0 == 0 && s1 == 0 && s2 == 0 && s3 == 0 && s4 == 0 && (s5 == 0 || s5 == 0xffff) {
                let addr = [
                    #[verifier::truncate] ((s6 >> 8) as u8),
                    #[verifier::truncate] (s6 as u8),
                    #[verifier::truncate] ((s7 >> 8) as u8),
                    #[verifier::truncate] (s7 as u8),
                ];
                proof {
                    assert(is_v4_in_v6(segs_spec));
                    assert(addr@ =~= seq![
                        (segs_spec[6] >> 8) as u8,
                        segs_spec[6] as u8,
                        (segs_spec[7] >> 8) as u8,
                        segs_spec[7] as u8,
                    ]);
                }
                Ok((PeerAddr::Ipv4 { addr, port }, pos + 19))
            } else {
                let segs = [s0, s1, s2, s3, s4, s5, s6, s7];
                proof {
                    assert(segs@ =~= segs_spec);
                    assert(!is_v4_in_v6(segs_spec));
                }
                Ok((PeerAddr::Ipv6 { segs, port }, pos + 19))
            }
        } else {
            if data.len() - pos < 9 {
                return Err(ser::Error::UnexpectedEof);
            }
            let len64 = ser::read_u64_be(data, pos + 1);
            let remaining = data.len() - pos - 9;
            if len64 > remaining as u64 {
                return Err(ser::Error::UnexpectedEof);
            }
            let len = len64 as usize;
            proof {
                assert(len64 <= remaining as u64);
                assert(len as int == len64 as int);
                assert(pos + 9 + len <= data@.len());
            }
            let mut payload: Vec<u8> = Vec::new();
            let mut i: usize = 0;
            while i < len
                invariant
                    i <= len,
                    pos + 9 + len <= usize::MAX,
                    pos + 9 + len <= data@.len(),
                    payload@ == data@.subrange(pos + 9, pos + 9 + i),
                decreases len - i,
            {
                payload.push(data[pos + 9 + i]);
                i += 1;
                proof {
                    assert(payload@ =~= data@.subrange(pos + 9, pos + 9 + i));
                }
            }
            let host = match string_from_utf8(payload) {
                Some(s) => s,
                None => String::new(),
            };
            Ok((PeerAddr::Onion(host), pos + 9 + len))
        }
    }
}

/// Whether four octets are a loopback IPv4 address (first octet 127).
pub open spec fn is_loopback_v4(addr: Seq<u8>) -> bool {
    addr[0] == 127
}

/// Whether eight segments are the loopback IPv6 address (only the last
/// segment one).
pub open spec fn is_loopback_v6(segs: Seq<u16>) -> bool {
    segs[0] == 0 && segs[1] == 0 && segs[2] == 0 && segs[3] == 0 && segs[4] == 0 && segs[5] == 0
        && segs[6] == 0 && segs[7] == 1
}

/// What `==` on peer addresses means. Equality is deliberately not
/// structural: a loopback address compares by address and port, so test
/// harnesses can run many local peers, while any other IP address
/// compares by address alone, enforcing at most one peer per remote
/// host whatever port it dials from. Onion addresses compare by their
/// name. Different variants never compare equal.
pub open spec fn addr_eq(a: AddrView, b: AddrView) -> bool {
    match a {
        AddrView::Ipv4 { addr: a1, port: p1 } => match b {
            AddrView::Ipv4 { addr: a2, port: p2 } => if is_loopback_v4(a1) {
                a1 == a2 && p1 == p2
            } else {
                a1 == a2
            },
            _ => false,
        },
        AddrView::Ipv6 { segs: s1, port: p1 } => match b {
            AddrView::Ipv6 { segs: s2, port: p2 } => if is_loopback_v6(s1) {
                s1 == s2 && p1 == p2
            } else {
                s1 == s2
            },
            _ => false,
        },
        AddrView::Onion { host: h1 } => match b {
            AddrView::Onion { host: h2 } => h1 == h2,
            _ => false,
        },
    }
}

/// Whether two four-octet addresses hold the same octets.
fn octets_eq(a: &[u8; 4], b: &[u8; 4]) -> (r: bool)
    ensures
        r == (a@ == b@),
{
    let r = a[0] == b[0] && a[1] == b[1] && a[2] == b[2] && a[3] == b[3];
    proof {
        if r {
            assert(a@ =~= b@);
        }
    }
    r
}

/// Whether two eight-segment addresses hold the same segments.
fn segs_eq(a: &[u16; 8], b: &[u16; 8]) -> (r: bool)
    ensures
        r == (a@ == b@),
{
    let r = a[0] == b[0] && a[1] == b[1] && a[2] == b[2] && a[3] == b[3] && a[4] == b[4] && a[5]
        == b[5] && a[6] == b[6] && a[7] == b[7];
    proof {
        if r {
            assert(a@ =~= b@);
        }
    }
    r
}

impl PartialEq for PeerAddr {
    /// The anti-duplicate-connection equality of `addr_eq`: loopback
    /// addresses compare with their port, other IP addresses by address
    /// alone.
    fn eq(&self, other: &PeerAddr) -> (r: bool) {
        match (self, other) {
            (PeerAddr::Ipv4 { addr: a1, port: p1 }, PeerAddr::Ipv4 { addr: a2, port: p2 }) => {
                if a1[0] == 127 {
                    octets_eq(a1, a2) && *p1 == *p2
                } else {
                    octets_eq(a1, a2)
                }
            },
            (PeerAddr::Ipv6 { segs: s1, port: p1 }, PeerAddr::Ipv6 { segs: s2, port: p2 }) => {
                let lo = s1[0] == 0 && s1[1] == 0 && s1[2] == 0 && s1[3] == 0 && s1[4] == 0 && s1[5]
                    == 0 && s1[6] == 0 && s1[7] == 1;
                if lo {
                    segs_eq(s1, s2) && *p1 == *p2
                } else {
                    segs_eq(s1, s2)
                }
            },
            (PeerAddr::Onion(h1), PeerAddr::Onion(h2)) => h1.eq(h2),
            _ => false,
        }
    }
}

impl Eq for PeerAddr {

}

impl vstd::std_specs::cmp::PartialEqSpecImpl for PeerAddr {
    open spec fn obeys_eq_spec() -> bool {
        true
    }

    open spec fn eq_spec(&self, other: &PeerAddr) -> bool {
        addr_eq(self@, other@)
    }
}

/// The default port a bare address is dialed at: 13414 on the protocol
/// testing network, 3414 otherwise.
pub open spec fn spec_default_port(chain_type: ChainTypes) -> u16 {
    if chain_type == ChainTypes::Floonet {
        13414
    } else {
        3414
    }
}

/// A bare IP address, before a port is attached.
#[derive(Clone, Copy, Debug)]
pub enum BareIp {
    /// Four IPv4 octets.
    V4([u8; 4]),
    /// Eight IPv6 segments.
    V6([u16; 8]),
}

impl PeerAddr {
    /// A peer address for a bare IP address, at the default port of the
    /// resolved chain profile.
    pub fn from_ip(addr: BareIp, g: &GlobalState) -> (r: PeerAddr)
        requires
            g.chain_type_set(),
        ensures
            r@ == match addr {
                BareIp::V4(a) => AddrView::Ipv4 {
                    addr: a@,
                    port: spec_default_port(g.chain_type()),
                },
                BareIp::V6(s) => AddrView::Ipv6 {
                    segs: s@,
                    port: spec_default_port(g.chain_type()),
                },
            },
    {
        let port: u16 = if crate::global::is_floonet(g) {
            13414
        } else {
            3414
        };
        match addr {
            BareIp::V4(a) => PeerAddr::Ipv4 { addr: a, port },
            BareIp::V6(s) => PeerAddr::Ipv6 { segs: s, port },
        }
    }

    /// Classify a peer-supplied text: a strict socket-address parse wins,
    /// then the first name-resolution result, and a text that is neither
    /// is taken verbatim as an onion name. The two optional arguments are
    /// the results of those two attempts, which only the embedding
    /// network layer can make; this ordering decides which kind of string
    /// is accepted as which variant and must not change.
    pub fn from_str_resolved(addr: &str, parsed: Option<PeerAddr>, resolved: Option<
        PeerAddr,
    >) -> (r: PeerAddr)
        ensures
            match parsed {
                Some(a) => r == a,
                None => match resolved {
                    Some(a) => r == a,
                    None => r@ == (AddrView::Onion { host: addr@ }),
                },
            },
    {
        match parsed {
            Some(a) => a,
            None => match resolved {
                Some(a) => a,
                None => PeerAddr::Onion(addr.to_owned()),
            },
        }
    }

    /// The onion name with a trailing `.onion` suffix stripped.
    pub open spec fn spec_tor_pubkey(host: Seq<char>) -> Seq<char> {
        if host.len() >= 6 && host.subrange(host.len() - 6, host.len() as int) == ".onion"@ {
            host.subrange(0, host.len() - 6)
        } else {
            host
        }
    }

    /// The Tor public key of an onion address: its name, any trailing
    /// `.onion` suffix stripped. Asking an IP address is a domain
    /// mismatch and reports an error rather than crashing.
    pub fn tor_pubkey(&self) -> (r: Result<String, Error>)
        ensures
            match r {
                Ok(s) => self@ matches AddrView::Onion { host } && s@ == Self::spec_tor_pubkey(
                    host,
                ),
                Err(e) => !(self@ is Onion) && e matches Error::Internal(_),
            },
    {
        match self {
            PeerAddr::Ipv4 { .. } | PeerAddr::Ipv6 { .. } => Err(
                Error::Internal("requested TOR pub key from IP address".to_owned()),
            ),
            PeerAddr::Onion(onion) => {
                let n = onion.as_str().unicode_len();
                let has_suffix: bool;
                if n >= 6 {
                    let tail = onion.as_str().substring_char(n - 6, n);
                    let m = tail.get_char(0) == '.' && tail.get_char(1) == 'o' && tail.get_char(2)
                        == 'n' && tail.get_char(3) == 'i' && tail.get_char(4) == 'o'
                        && tail.get_char(5) == 'n';
                    proof {
                        reveal_strlit(".onion");
                        if m {
                            assert(tail@ =~= ".onion"@);
                        }
                        if tail@ == ".onion"@ {
                            assert(tail@[0] == '.' && tail@[1] == 'o' && tail@[2] == 'n' && tail@[3]
                                == 'i' && tail@[4] == 'o' && tail@[5] == 'n');
                        }
                        assert(m == (onion@.subrange(onion@.len() - 6, onion@.len() as int)
                            == ".onion"@));
                    }
                    has_suffix = m;
                } else {
                    proof {
                        reveal_strlit(".onion");
                        assert(".onion"@.len() == 6);
                    }
                    has_suffix = false;
                }
                if has_suffix {
                    let stripped = onion.as_str().substring_char(0, n - 6);
                    Ok(stripped.to_owned())
                } else {
                    Ok(onion.clone())
                }
            },
        }
    }
}

/// Whether eight segments are an IPv4-mapped IPv6 address, rendered in
/// text as `::ffff:` followed by the embedded IPv4 address.
pub open spec fn is_v4_mapped(segs: Seq<u16>) -> bool {
    segs[0] == 0 && segs[1] == 0 && segs[2] == 0 && segs[3] == 0 && segs[4] == 0 && segs[5]
        == 0xffff
}

/// The number of consecutive zero segments starting at `i`.
pub open spec fn zero_run_len(segs: Seq<u16>, i: int) -> int
    decreases segs.len() - i,
{
    if i < 0 || i >= segs.len() || segs[i] != 0 {
        0
    } else {
        1 + zero_run_len(segs, i + 1)
    }
}

/// The leftmost longest run of zero segments at or after `i`, as start
/// and length; ties go to the left.
pub open spec fn best_zero_run(segs: Seq<u16>, i: int) -> (int, int)
    decreases segs.len() - i,
{
    if i >= segs.len() {
        (i, 0)
    } else {
        let cur = zero_run_len(segs, i);
        let rest = best_zero_run(segs, i + 1);
        if cur >= rest.1 {
            (i, cur)
        } else {
            rest
        }
    }
}

/// The text of the hex groups from `from` (inclusive) to `to`
/// (exclusive), joined with `:`.
pub open spec fn groups_text(segs: Seq<u16>, from: int, to: int) -> Seq<char>
    decreases to - from,
{
    if from >= to {
        Seq::empty()
    } else if from + 1 == to {
        crate::text::hex_seq(segs[from] as nat)
    } else {
        crate::text::hex_seq(segs[from] as nat) + seq![':'] + groups_text(segs, from + 1, to)
    }
}

/// The dotted-decimal text of four octets.
pub open spec fn v4_text(addr: Seq<u8>) -> Seq<char> {
    crate::text::dec_seq(addr[0] as nat) + seq!['.'] + crate::text::dec_seq(addr[1] as nat)
        + seq!['.'] + crate::text::dec_seq(addr[2] as nat) + seq!['.'] + crate::text::dec_seq(
        addr[3] as nat,
    )
}

/// The canonical text of eight IPv6 segments: an IPv4-mapped address
/// shows its embedded IPv4 address after `::ffff:`; otherwise lowercase
/// hex groups with the leftmost longest run of at least two zero groups
/// compressed to `::`.
pub open spec fn v6_text(segs: Seq<u16>) -> Seq<char> {
    if is_v4_mapped(segs) {
        seq![':', ':', 'f', 'f', 'f', 'f', ':'] + v4_text(
            seq![(segs[6] >> 8) as u8, segs[6] as u8, (segs[7] >> 8) as u8, segs[7] as u8],
        )
    } else {
        let run = best_zero_run(segs, 0);
        if run.1 >= 2 {
            groups_text(segs, 0, run.0) + seq![':', ':'] + groups_text(segs, run.0 + run.1, 8)
        } else {
            groups_text(segs, 0, 8)
        }
    }
}

/// The key a peer is deduplicated under. A loopback address keys as
/// `address:port`, so many local test peers can coexist; any other IP
/// address keys as the address alone, allowing one peer per remote host;
/// an onion address keys as its name. Consistent with `addr_eq`.
pub open spec fn spec_key(a: AddrView) -> Seq<char> {
    match a {
        AddrView::Ipv4 { addr, port } => if is_loopback_v4(addr) {
            v4_text(addr) + seq![':'] + crate::text::dec_seq(port as nat)
        } else {
            v4_text(addr)
        },
        AddrView::Ipv6 { segs, port } => if is_loopback_v6(segs) {
            v6_text(segs) + seq![':'] + crate::text::dec_seq(port as nat)
        } else {
            v6_text(segs)
        },
        AddrView::Onion { host } => host,
    }
}

/// The number of consecutive zero segments starting at `i`.
fn zero_run_len_exec(segs: &[u16; 8], i: usize) -> (r: usize)
    requires
        i <= 8,
    ensures
        r as int == zero_run_len(segs@, i as int),
        i + r <= 8,
    decreases 8 - i,
{
    if i >= 8 || segs[i] != 0 {
        0
    } else {
        1 + zero_run_len_exec(segs, i + 1)
    }
}

/// The leftmost longest run of zero segments at or after `i`.
fn best_zero_run_exec(segs: &[u16; 8], i: usize) -> (r: (usize, usize))
    requires
        i <= 8,
    ensures
        (r.0 as int, r.1 as int) == best_zero_run(segs@, i as int),
        r.0 + r.1 <= 8,
    decreases 8 - i,
{
    if i >= 8 {
        (i, 0)
    } else {
        let cur = zero_run_len_exec(segs, i);
        let rest = best_zero_run_exec(segs, i + 1);
        if cur >= rest.1 {
            (i, cur)
        } else {
            rest
        }
    }
}

/// Append the hex groups from `from` to `to`, joined with `:`.
fn push_groups(s: &mut String, segs: &[u16; 8], from: usize, to: usize)
    requires
        from <= to <= 8,
    ensures
        final(s)@ == old(s)@ + groups_text(segs@, from as int, to as int),
    decreases to - from,
{
    if from < to {
        crate::text::push_hex(s, segs[from] as u64);
        if from + 1 < to {
            proof {
                reveal_strlit(":");
            }
            s.append(":");
            push_groups(s, segs, from + 1, to);
        }
    }
    proof {
        reveal_strlit(":");
        assert(final(s)@ =~= old(s)@ + groups_text(segs@, from as int, to as int));
    }
}

/// Append the dotted-decimal text of four octets.
fn push_v4(s: &mut String, addr: &[u8; 4])
    ensures
        final(s)@ == old(s)@ + v4_text(addr@),
{
    proof {
        reveal_strlit(".");
    }
    crate::text::push_dec(s, addr[0] as u64);
    s.append(".");
    crate::text::push_dec(s, addr[1] as u64);
    s.append(".");
    crate::text::push_dec(s, addr[2] as u64);
    s.append(".");
    crate::text::push_dec(s, addr[3] as u64);
    proof {
        assert(final(s)@ =~= old(s)@ + v4_text(addr@));
    }
}

impl PeerAddr {
    /// The key this address is deduplicated under in the peer map:
    /// `address:port` for a loopback address, the address alone
    /// otherwise, the name for an onion address — consistent with `==`
    /// on addresses.
    pub fn as_key(&self) -> (r: String)
        ensures
            r@ == spec_key(self@),
    {
        let mut s = String::new();
        match self {
            PeerAddr::Ipv4 { addr, port } => {
                push_v4(&mut s, addr);
                if addr[0] == 127 {
                    proof {
                        reveal_strlit(":");
                    }
                    s.append(":");
                    crate::text::push_dec(&mut s, *port as u64);
                }
                proof {
                    assert(s@ =~= spec_key(self@));
                }
                s
            },
            PeerAddr::Ipv6 { segs, port } => {
                let mapped = segs[0] == 0 && segs[1] == 0 && segs[2] == 0 && segs[3] == 0 && segs[4]
                    == 0 && segs[5] == 0xffff;
                if mapped {
                    proof {
                        reveal_strlit("::ffff:");
                    }
                    s.append("::ffff:");
                    let embedded = [
                        #[verifier::truncate] ((segs[6] >> 8) as u8),
                        #[verifier::truncate] (segs[6] as u8),
                        #[verifier::truncate] ((segs[7] >> 8) as u8),
                        #[verifier::truncate] (segs[7] as u8),
                    ];
                    push_v4(&mut s, &embedded);
                    proof {
                        assert("::ffff:"@ =~= seq![':', ':', 'f', 'f', 'f', 'f', ':']);
                        assert(embedded@ =~= seq![
                            (segs@[6] >> 8) as u8,
                            segs@[6] as u8,
                            (segs@[7] >> 8) as u8,
                            segs@[7] as u8,
                        ]);
                        assert(s@ =~= v6_text(segs@));
                    }
                } else {
                    let run = best_zero_run_exec(segs, 0);
                    if run.1 >= 2 {
                        proof {
                            reveal_strlit("::");
                        }
                        push_groups(&mut s, segs, 0, run.0);
                        s.append("::");
                        push_groups(&mut s, segs, run.0 + run.1, 8);
                        proof {
                            assert("::"@ =~= seq![':', ':']);
                            assert(s@ =~= v6_text(segs@));
                        }
                    } else {
                        push_groups(&mut s, segs, 0, 8);
                        proof {
                            assert(s@ =~= v6_text(segs@));
                        }
                    }
                }
                let lo = segs[0] == 0 && segs[1] == 0 && segs[2] == 0 && segs[3] == 0 && segs[4]
                    == 0 && segs[5] == 0 && segs[6] == 0 && segs[7] == 1;
                if lo {
                    proof {
                        reveal_strlit(":");
                    }
                    s.append(":");
                    crate::text::push_dec(&mut s, *port as u64);
                }
                proof {
                    assert(s@ =~= spec_key(self@));
                }
                s
            },
            PeerAddr::Onion(host) => host.clone(),
        }
    }
}

/// The deduplication key respects address equality: two addresses that
/// compare equal always key to the same map entry, so the peer map can
/// never hold both.
pub proof fn lemma_key_respects_eq(a: AddrView, b: AddrView)
    requires
        addr_eq(a, b),
    ensures
        spec_key(a) == spec_key(b),
{
}

/// Encoding then decoding gives the address back, canonicalized: every
/// encodable address round-trips through the wire format, with an IPv6
/// address that embeds an IPv4 one coming back as the IPv4 variant.
#[verifier::rlimit(50)]
pub proof fn lemma_encode_round_trip(a: AddrView)
    requires
        a.wf(),
        encodable(a),
    ensures
        spec_read(spec_encode(a), 0) == Some((canonical(a), spec_encode(a).len() as int)),
{
    broadcast use vstd::utf8::encode_utf8_valid_utf8, vstd::utf8::encode_utf8_decode_utf8;

    let b = spec_encode(a);
    match a {
        AddrView::Ipv4 { addr, port } => {
            assert(b.len() == 7);
            assert(b[0] == 0);
            assert(b.subrange(1, 5) =~= addr);
            ser::lemma_be16_round_trip(port);
            assert(spec_read(b, 0) == Some((a, 7int)));
        },
        AddrView::Ipv6 { segs, port } => {
            assert(b.len() == 19);
            assert(b[0] == 1);
            let decoded = Seq::new(8, |i: int| be16_val(b[1 + 2 * i], b[2 + 2 * i]));
            assert forall|i: int| 0 <= i < 8 implies decoded[i] == segs[i] by {
                assert(segs_bytes(segs)[2 * i] == (segs[i] >> 8) as u8);
                assert(segs_bytes(segs)[2 * i + 1] == segs[i] as u8);
                assert(b[1 + 2 * i] == segs_bytes(segs)[2 * i]);
                assert(b[2 + 2 * i] == segs_bytes(segs)[2 * i + 1]);
                ser::lemma_be16_round_trip(segs[i]);
            }
            assert(decoded =~= segs);
            assert(b[17] == (port >> 8) as u8 && b[18] == port as u8);
            ser::lemma_be16_round_trip(port);
            assert(spec_read(b, 0) == Some((canonical(a), 19int)));
        },
        AddrView::Onion { host } => {
            let payload = encode_utf8(host);
            let n = payload.len() as int;
            assert(b.len() == 9 + n);
            assert(b[0] == 2);
            assert(b.subrange(1, 9) =~= be64(n as u64));
            ser::lemma_be64_round_trip(n as u64);
            assert(b.subrange(9, 9 + n) =~= payload);
            assert(valid_utf8(payload));
            assert(decode_utf8(payload) == host);
            assert(spec_read(b, 0) == Some((a, 9 + n)));
        },
    }
}

} // verus!
