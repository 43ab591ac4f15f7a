//! Destination addresses and their wire encoding: one address-type byte, the
//! address itself in one of three families, and a big-endian port.

use vstd::prelude::*;
use vstd::slice::slice_subrange;
use vstd::slice::slice_to_vec;
use crate::error::SocksError;

verus! {

/// Address-type byte of an IPv4 address.
pub const ATYP_IPV4: u8 = 1;

/// Address-type byte of a domain name.
pub const ATYP_DOMAIN_NAME: u8 = 3;

/// Address-type byte of an IPv6 address.
pub const ATYP_IPV6: u8 = 4;

/// The longest domain name that the one-byte length prefix can express.
pub const MAX_DOMAIN_LEN: usize = 255;

/// The longest field that a one-byte length prefix can announce.
pub const MAX_FIELD_LEN: usize = 255;

/// The host part of a destination.
#[derive(Debug, PartialEq, Eq)]
pub enum Host {
    /// Four raw octets.
    V4([u8; 4]),
    /// The bytes of a host name, exactly as the client sent them.
    Domain(Vec<u8>),
    /// Sixteen raw octets.
    V6([u8; 16]),
}

/// The mathematical value of a [`Host`].
pub enum HostModel {
    V4(Seq<u8>),
    Domain(Seq<u8>),
    V6(Seq<u8>),
}

impl View for Host {
    type V = HostModel;

    open spec fn view(&self) -> HostModel {
        match self {
            Host::V4(octets) => HostModel::V4(octets@),
            Host::Domain(name) => HostModel::Domain(name@),
            Host::V6(octets) => HostModel::V6(octets@),
        }
    }
}

/// A destination: a host and a port.
#[derive(Debug, PartialEq, Eq)]
pub struct Address {
    pub host: Host,
    pub port: u16,
}

/// The mathematical value of an [`Address`].
pub struct AddressModel {
    pub host: HostModel,
    pub port: u16,
}

impl View for Address {
    type V = AddressModel;

    open spec fn view(&self) -> AddressModel {
        AddressModel { host: self.host@, port: self.port }
    }
}

/// The port that two bytes in network order stand for.
pub open spec fn port_of(high: u8, low: u8) -> u16 {
    (high as int * 256 + low as int) as u16
}

/// A port as two bytes in network order.
pub open spec fn port_bytes(port: u16) -> Seq<u8> {
    seq![(port / 256) as u8, (port % 256) as u8]
}

impl HostModel {
    /// The address-type byte of the family.
    pub open spec fn family(self) -> u8 {
        match self {
            HostModel::V4(_) => ATYP_IPV4,
            HostModel::Domain(_) => ATYP_DOMAIN_NAME,
            HostModel::V6(_) => ATYP_IPV6,
        }
    }

    /// Whether the wire format can carry this host: fixed sizes for the two
    /// IP families, at most 255 bytes for a name.
    pub open spec fn representable(self) -> bool {
        match self {
            HostModel::V4(octets) => octets.len() == 4,
            HostModel::Domain(name) => name.len() <= MAX_DOMAIN_LEN,
            HostModel::V6(octets) => octets.len() == 16,
        }
    }
}

impl AddressModel {
    /// Whether the wire format can carry this address.
    pub open spec fn representable(self) -> bool {
        self.host.representable()
    }

    /// The wire encoding of a representable address.
    pub open spec fn wire(self) -> Seq<u8> {
        match self.host {
            HostModel::V4(octets) => seq![ATYP_IPV4] + octets + port_bytes(self.port),
            HostModel::Domain(name) => seq![ATYP_DOMAIN_NAME, name.len() as u8] + name
                + port_bytes(self.port),
            HostModel::V6(octets) => seq![ATYP_IPV6] + octets + port_bytes(self.port),
        }
    }
}

/// What decoding a length-prefixed name from the front of `buf` yields: the
/// name and the number of bytes it occupies, length byte included.
pub open spec fn parse_domain(buf: Seq<u8>) -> Result<(Seq<u8>, nat), SocksError> {
    if buf.len() < 1 {
        Err(SocksError::FramingError)
    } else if buf.len() < 1 + buf[0] {
        Err(SocksError::FramingError)
    } else {
        Ok((buf.subrange(1, 1 + buf[0]), (1 + buf[0]) as nat))
    }
}

/// What decoding an address from the front of `buf` yields: the address and
/// the number of bytes it occupies, type byte and port included.
pub open spec fn parse_address(buf: Seq<u8>) -> Result<(AddressModel, nat), SocksError> {
    if buf.len() < 1 {
        Err(SocksError::FramingError)
    } else if buf[0] == ATYP_IPV4 {
        if buf.len() < 7 {
            Err(SocksError::FramingError)
        } else {
            Ok(
                (
                    AddressModel {
                        host: HostModel::V4(buf.subrange(1, 5)),
                        port: port_of(buf[5], buf[6]),
                    },
                    7nat,
                ),
            )
        }
    } else if buf[0] == ATYP_DOMAIN_NAME {
        match parse_domain(buf.skip(1)) {
            Err(e) => Err(e),
            Ok((name, used)) => {
                if buf.len() < 1 + used + 2 {
                    Err(SocksError::FramingError)
                } else {
                    Ok(
                        (
                            AddressModel {
                                host: HostModel::Domain(name),
                                port: port_of(buf[1 + used as int], buf[2 + used as int]),
                            },
                            (1 + used + 2) as nat,
                        ),
                    )
                }
            },
        }
    } else if buf[0] == ATYP_IPV6 {
        if buf.len() < 19 {
            Err(SocksError::FramingError)
        } else {
            Ok(
                (
                    AddressModel {
                        host: HostModel::V6(buf.subrange(1, 17)),
                        port: port_of(buf[17], buf[18]),
                    },
                    19nat,
                ),
            )
        }
    } else {
        Err(SocksError::UnsupportedAddressType)
    }
}

/// Copies `count` bytes of `buf`, starting at `start`, for a field whose
/// length prefix is one byte. A count above 255 is refused whatever the
/// buffer holds, and so is a field that runs past the end of the buffer.
pub fn take_field(buf: &[u8], start: usize, count: usize) -> (field: Result<Vec<u8>, SocksError>)
    ensures
        count > MAX_FIELD_LEN || start + count > buf@.len() ==> field == Err::<Vec<u8>, SocksError>(
            SocksError::FramingError,
        ),
        count <= MAX_FIELD_LEN && start + count <= buf@.len() ==> field.is_ok() && field.unwrap()@
            == buf@.subrange(start as int, start + count),
{
    if count > MAX_FIELD_LEN || start > buf.len() || count > buf.len() - start {
        return Err(SocksError::FramingError);
    }
    Ok(slice_to_vec(slice_subrange(buf, start, start + count)))
}

/// Decodes a length-prefixed name from the front of `buf`. On success the
/// second component is the number of bytes consumed: the length byte and
/// exactly as many bytes as it announces.
pub fn decode_domain(buf: &[u8]) -> (decoded: Result<(Vec<u8>, usize), SocksError>)
    ensures
        match decoded {
            Ok((name, used)) => parse_domain(buf@) == Ok::<(Seq<u8>, nat), SocksError>(
                (name@, used as nat),
            ) && used == 1 + buf@[0],
            Err(e) => parse_domain(buf@) == Err::<(Seq<u8>, nat), SocksError>(e),
        },
{
    if buf.len() < 1 {
        return Err(SocksError::FramingError);
    }
    let count: usize = buf[0] as usize;
    match take_field(buf, 1, count) {
        Ok(name) => Ok((name, 1 + count)),
        Err(e) => Err(e),
    }
}

/// Decodes an address from the front of `buf`: the type byte, the host in
/// the family that the byte names, and the port. On success the second
/// component is the number of bytes consumed.
pub fn decode_address(buf: &[u8]) -> (decoded: Result<(Address, usize), SocksError>)
    ensures
        match decoded {
            Ok((address, used)) => parse_address(buf@) == Ok::<(AddressModel, nat), SocksError>(
                (address@, used as nat),
            ),
            Err(e) => parse_address(buf@) == Err::<(AddressModel, nat), SocksError>(e),
        },
{
    if buf.len() < 1 {
        return Err(SocksError::FramingError);
    }
    let family: u8 = buf[0];
    if family == ATYP_IPV4 {
        if buf.len() < 7 {
            return Err(SocksError::FramingError);
        }
        let octets: [u8; 4] = [buf[1], buf[2], buf[3], buf[4]];
        assert(octets@ =~= buf@.subrange(1, 5));
        Ok((Address { host: Host::V4(octets), port: read_port(buf[5], buf[6]) }, 7))
    } else if family == ATYP_DOMAIN_NAME {
        let rest = slice_subrange(buf, 1, buf.len());
        assert(rest@ =~= buf@.skip(1));
        match decode_domain(rest) {
            Err(e) => Err(e),
            Ok((name, used)) => {
                if buf.len() - 1 - used < 2 {
                    return Err(SocksError::FramingError);
                }
                let port = read_port(buf[1 + used], buf[2 + used]);
                Ok((Address { host: Host::Domain(name), port }, 3 + used))
            },
        }
    } else if family == ATYP_IPV6 {
        if buf.len() < 19 {
            return Err(SocksError::FramingError);
        }
        let octets: [u8; 16] = [
            buf[1],
            buf[2],
            buf[3],
            buf[4],
            buf[5],
            buf[6],
            buf[7],
            buf[8],
            buf[9],
            buf[10],
            buf[11],
            buf[12],
            buf[13],
            buf[14],
            buf[15],
            buf[16],
        ];
        assert(octets@ =~= buf@.subrange(1, 17));
        Ok((Address { host: Host::V6(octets), port: read_port(buf[17], buf[18]) }, 19))
    } else {
        Err(SocksError::UnsupportedAddressType)
    }
}

/// Reads a port from two bytes in network order.
pub fn read_port(high: u8, low: u8) -> (port: u16)
    ensures
        port == port_of(high, low),
{
    (high as u16) * 256 + (low as u16)
}

/// Appends a port to `out` as two bytes in network order.
pub fn write_port(out: &mut Vec<u8>, port: u16)
    ensures
        final(out)@ == old(out)@ + port_bytes(port),
{
    out.push((port / 256) as u8);
    out.push((port % 256) as u8);
    assert(out@ =~= old(out)@ + port_bytes(port));
}

/// Appends the wire encoding of `address` to `out`. A name longer than 255
/// bytes cannot be framed: it is refused and `out` is left as it was.
pub fn encode_address(address: &Address, out: &mut Vec<u8>) -> (done: Result<(), SocksError>)
    ensures
        address@.representable() ==> done.is_ok() && final(out)@ == old(out)@ + address@.wire(),
        !address@.representable() ==> done == Err::<(), SocksError>(SocksError::FramingError)
            && final(out)@ == old(out)@,
{
    match &address.host {
        Host::V4(octets) => {
            out.push(ATYP_IPV4);
            out.extend_from_slice(octets.as_slice());
        },
        Host::Domain(name) => {
            if name.len() > MAX_DOMAIN_LEN {
                return Err(SocksError::FramingError);
            }
            out.push(ATYP_DOMAIN_NAME);
            out.push(name.len() as u8);
            out.extend_from_slice(name.as_slice());
        },
        Host::V6(octets) => {
            out.push(ATYP_IPV6);
            out.extend_from_slice(octets.as_slice());
        },
    }
    write_port(out, address.port);
    assert(out@ =~= old(out)@ + address@.wire());
    Ok(())
}

impl Clone for Host {
    fn clone(&self) -> (copy: Host)
        ensures
            copy@ == self@,
    {
        match self {
            Host::V4(octets) => Host::V4(*octets),
            Host::Domain(name) => Host::Domain(slice_to_vec(name.as_slice())),
            Host::V6(octets) => Host::V6(*octets),
        }
    }
}

impl Clone for Address {
    fn clone(&self) -> (copy: Address)
        ensures
            copy@ == self@,
    {
        Address { host: self.host.clone(), port: self.port }
    }
}

/// A port survives the trip through its two bytes.
pub proof fn port_round_trip(port: u16)
    ensures
        port_bytes(port).len() == 2,
        port_of(port_bytes(port)[0], port_bytes(port)[1]) == port,
{
}

/// Two bytes are the encoding of the port they stand for.
pub proof fn port_bytes_round_trip(high: u8, low: u8)
    ensures
        port_bytes(port_of(high, low)) == seq![high, low],
{
    assert(port_bytes(port_of(high, low)) =~= seq![high, low]);
}

/// The name decoder looks at the length byte and at as many bytes as it
/// announces, and at nothing behind them: two buffers that agree on that
/// prefix decode alike, and the decoder consumes exactly the prefix.
pub proof fn domain_decoder_stops_at_boundary(first: Seq<u8>, second: Seq<u8>)
    requires
        first.len() >= 1,
        first.len() >= 1 + first[0],
        second.len() >= 1 + first[0],
        first.take(1 + first[0]) == second.take(1 + first[0]),
    ensures
        parse_domain(first) == parse_domain(second),
        parse_domain(first) is Ok,
        parse_domain(first).unwrap().1 == 1 + first[0],
        parse_domain(first).unwrap().0 == first.subrange(1, 1 + first[0]),
{
    let n = 1 + first[0];
    assert(first[0] == first.take(n)[0]);
    assert(second[0] == second.take(n)[0]);
    assert(first.subrange(1, n) =~= first.take(n).subrange(1, n));
    assert(second.subrange(1, n) =~= second.take(n).subrange(1, n));
}

/// Decoding what the encoder wrote gives the address back and consumes
/// exactly the encoding, whatever follows it in the buffer.
pub proof fn address_decode_inverts_encode(address: AddressModel, rest: Seq<u8>)
    requires
        address.representable(),
    ensures
        parse_address(address.wire() + rest) == Ok::<(AddressModel, nat), SocksError>(
            (address, address.wire().len()),
        ),
{
    let buf = address.wire() + rest;
    port_round_trip(address.port);
    match address.host {
        HostModel::V4(octets) => {
            assert(buf.subrange(1, 5) =~= octets);
            assert(buf[5] == port_bytes(address.port)[0]);
            assert(buf[6] == port_bytes(address.port)[1]);
        },
        HostModel::Domain(name) => {
            let n = name.len() as int;
            assert(buf[1] == n as u8);
            assert(buf.skip(1)[0] == buf[1]);
            assert(buf.skip(1).subrange(1, 1 + n) =~= name);
            assert(buf[2 + n] == port_bytes(address.port)[0]);
            assert(buf[3 + n] == port_bytes(address.port)[1]);
        },
        HostModel::V6(octets) => {
            assert(buf.subrange(1, 17) =~= octets);
            assert(buf[17] == port_bytes(address.port)[0]);
            assert(buf[18] == port_bytes(address.port)[1]);
        },
    }
}

/// Whatever decodes is representable, and encoding it again gives back
/// exactly the bytes that the decoder consumed.
pub proof fn address_encode_inverts_decode(buf: Seq<u8>)
    requires
        parse_address(buf) is Ok,
    ensures
        parse_address(buf).unwrap().0.representable(),
        parse_address(buf).unwrap().1 <= buf.len(),
        parse_address(buf).unwrap().0.wire() == buf.take(parse_address(buf).unwrap().1 as int),
{
    let (address, used) = parse_address(buf).unwrap();
    if buf[0] == ATYP_IPV4 {
        port_bytes_round_trip(buf[5], buf[6]);
        assert(address.wire() =~= buf.take(used as int));
    } else if buf[0] == ATYP_DOMAIN_NAME {
        let n = buf[1] as int;
        assert(buf.skip(1)[0] == buf[1]);
        port_bytes_round_trip(buf[2 + n], buf[3 + n]);
        assert(address.host == HostModel::Domain(buf.skip(1).subrange(1, 1 + n)));
        assert(address.wire() =~= buf.take(used as int));
    } else {
        port_bytes_round_trip(buf[17], buf[18]);
        assert(address.wire() =~= buf.take(used as int));
    }
}

} // verus!
