//! The server's reply to a request: an outcome code and the address the
//! server bound for the client's sake.

use vstd::prelude::*;
use vstd::slice::slice_subrange;
use crate::address::address_decode_inverts_encode;
use crate::address::address_encode_inverts_decode;
use crate::address::decode_address;
use crate::address::encode_address;
use crate::address::parse_address;
use crate::address::Address;
use crate::address::AddressModel;
use crate::address::Host;
use crate::address::HostModel;
use crate::error::ConnectFailure;
use crate::error::SocksError;
use crate::greeting::VERSION;

verus! {

/// The outcome that a reply reports.
#[derive(Clone, Copy, Debug, PartialEq, Eq, Structural)]
pub enum ReplyCode {
    Succeeded,
    GeneralFailure,
    HostUnreachable,
    ConnectionRefused,
    CommandNotSupported,
    AddressTypeNotSupported,
}

/// The byte that stands for an outcome on the wire.
pub open spec fn code_byte(code: ReplyCode) -> u8 {
    match code {
        ReplyCode::Succeeded => 0,
        ReplyCode::GeneralFailure => 1,
        ReplyCode::HostUnreachable => 4,
        ReplyCode::ConnectionRefused => 5,
        ReplyCode::CommandNotSupported => 7,
        ReplyCode::AddressTypeNotSupported => 8,
    }
}

/// The outcome that a byte stands for, if any.
pub open spec fn code_of(byte: u8) -> Option<ReplyCode> {
    if byte == 0 {
        Some(ReplyCode::Succeeded)
    } else if byte == 1 {
        Some(ReplyCode::GeneralFailure)
    } else if byte == 4 {
        Some(ReplyCode::HostUnreachable)
    } else if byte == 5 {
        Some(ReplyCode::ConnectionRefused)
    } else if byte == 7 {
        Some(ReplyCode::CommandNotSupported)
    } else if byte == 8 {
        Some(ReplyCode::AddressTypeNotSupported)
    } else {
        None
    }
}

/// The outcome reported to the client for each failure: a refused
/// connection and an unreachable or unresolvable host keep their own codes,
/// an unsupported command or address type is named as such, and everything
/// else is a general failure.
pub open spec fn code_for(error: SocksError) -> ReplyCode {
    match error {
        SocksError::UnsupportedAddressType => ReplyCode::AddressTypeNotSupported,
        SocksError::UnsupportedCommand => ReplyCode::CommandNotSupported,
        SocksError::AddressResolutionError => ReplyCode::HostUnreachable,
        SocksError::OutboundConnectionError(ConnectFailure::Refused) => ReplyCode::ConnectionRefused,
        SocksError::OutboundConnectionError(ConnectFailure::Unreachable) => ReplyCode::HostUnreachable,
        _ => ReplyCode::GeneralFailure,
    }
}

/// A reply as the client sees it.
#[derive(Debug, PartialEq, Eq)]
pub struct Reply {
    pub code: ReplyCode,
    pub bound: Address,
}

impl Clone for Reply {
    fn clone(&self) -> (copy: Reply)
        ensures
            copy@ == self@,
    {
        Reply { code: self.code, bound: self.bound.clone() }
    }
}

/// The mathematical value of a [`Reply`].
pub struct ReplyModel {
    pub code: ReplyCode,
    pub bound: AddressModel,
}

impl View for Reply {
    type V = ReplyModel;

    open spec fn view(&self) -> ReplyModel {
        ReplyModel { code: self.code, bound: self.bound@ }
    }
}

impl ReplyModel {
    /// The wire encoding of a reply whose address is representable.
    pub open spec fn wire(self) -> Seq<u8> {
        seq![VERSION, code_byte(self.code), 0u8] + self.bound.wire()
    }
}

/// The address 0.0.0.0 with port 0, which stands in where the server has no
/// bound address to report.
pub open spec fn unspecified() -> AddressModel {
    AddressModel { host: HostModel::V4(seq![0u8, 0u8, 0u8, 0u8]), port: 0 }
}

/// What decoding a reply from the front of `buf` yields: the reply and the
/// number of bytes it occupies. An unknown outcome byte or a reserved byte
/// other than zero is a framing error.
pub open spec fn parse_reply(buf: Seq<u8>) -> Result<(ReplyModel, nat), SocksError> {
    if buf.len() < 1 {
        Err(SocksError::FramingError)
    } else if buf[0] != VERSION {
        Err(SocksError::ProtocolVersionMismatch)
    } else if buf.len() < 3 {
        Err(SocksError::FramingError)
    } else if code_of(buf[1]) is None || buf[2] != 0 {
        Err(SocksError::FramingError)
    } else {
        match parse_address(buf.skip(3)) {
            Err(e) => Err(e),
            Ok((bound, used)) => Ok(
                (ReplyModel { code: code_of(buf[1]).unwrap(), bound }, (3 + used) as nat),
            ),
        }
    }
}

/// Writes an outcome byte.
pub fn encode_code(code: ReplyCode) -> (byte: u8)
    ensures
        byte == code_byte(code),
{
    match code {
        ReplyCode::Succeeded => 0,
        ReplyCode::GeneralFailure => 1,
        ReplyCode::HostUnreachable => 4,
        ReplyCode::ConnectionRefused => 5,
        ReplyCode::CommandNotSupported => 7,
        ReplyCode::AddressTypeNotSupported => 8,
    }
}

/// Reads an outcome byte.
pub fn decode_code(byte: u8) -> (code: Option<ReplyCode>)
    ensures
        code == code_of(byte),
{
    if byte == 0 {
        Some(ReplyCode::Succeeded)
    } else if byte == 1 {
        Some(ReplyCode::GeneralFailure)
    } else if byte == 4 {
        Some(ReplyCode::HostUnreachable)
    } else if byte == 5 {
        Some(ReplyCode::ConnectionRefused)
    } else if byte == 7 {
        Some(ReplyCode::CommandNotSupported)
    } else if byte == 8 {
        Some(ReplyCode::AddressTypeNotSupported)
    } else {
        None
    }
}

/// The outcome to report for a failure.
pub fn reply_code_for(error: SocksError) -> (code: ReplyCode)
    ensures
        code == code_for(error),
{
    match error {
        SocksError::UnsupportedAddressType => ReplyCode::AddressTypeNotSupported,
        SocksError::UnsupportedCommand => ReplyCode::CommandNotSupported,
        SocksError::AddressResolutionError => ReplyCode::HostUnreachable,
        SocksError::OutboundConnectionError(ConnectFailure::Refused) => ReplyCode::ConnectionRefused,
        SocksError::OutboundConnectionError(ConnectFailure::Unreachable) => ReplyCode::HostUnreachable,
        _ => ReplyCode::GeneralFailure,
    }
}

/// The placeholder address 0.0.0.0:0.
pub fn unspecified_address() -> (address: Address)
    ensures
        address@ == unspecified(),
{
    let octets: [u8; 4] = [0, 0, 0, 0];
    assert(octets@ =~= seq![0u8, 0u8, 0u8, 0u8]);
    Address { host: Host::V4(octets), port: 0 }
}

/// Encodes a reply. An address that the wire format cannot carry is
/// refused.
pub fn encode_reply(reply: &Reply) -> (encoded: Result<Vec<u8>, SocksError>)
    ensures
        reply@.bound.representable() ==> encoded.is_ok() && encoded.unwrap()@ == reply@.wire(),
        !reply@.bound.representable() ==> encoded == Err::<Vec<u8>, SocksError>(
            SocksError::FramingError,
        ),
{
    let mut out: Vec<u8> = Vec::new();
    out.push(VERSION);
    out.push(encode_code(reply.code));
    out.push(0);
    assert(out@ =~= seq![VERSION, code_byte(reply.code), 0u8]);
    match encode_address(&reply.bound, &mut out) {
        Ok(()) => Ok(out),
        Err(e) => Err(e),
    }
}

/// Decodes a reply from the front of `buf`. On success the second component
/// is the number of bytes consumed.
pub fn decode_reply(buf: &[u8]) -> (decoded: Result<(Reply, usize), SocksError>)
    ensures
        match decoded {
            Ok((reply, used)) => parse_reply(buf@) == Ok::<(ReplyModel, nat), SocksError>(
                (reply@, used as nat),
            ),
            Err(e) => parse_reply(buf@) == Err::<(ReplyModel, nat), SocksError>(e),
        },
{
    if buf.len() < 1 {
        return Err(SocksError::FramingError);
    }
    if buf[0] != VERSION {
        return Err(SocksError::ProtocolVersionMismatch);
    }
    if buf.len() < 3 {
        return Err(SocksError::FramingError);
    }
    let code = match decode_code(buf[1]) {
        None => {
            return Err(SocksError::FramingError);
        },
        Some(code) => code,
    };
    if buf[2] != 0 {
        return Err(SocksError::FramingError);
    }
    let rest = slice_subrange(buf, 3, buf.len());
    assert(rest@ =~= buf@.skip(3));
    match decode_address(rest) {
        Err(e) => Err(e),
        Ok((bound, used)) => {
            proof {
                address_encode_inverts_decode(rest@);
            }
            Ok((Reply { code, bound }, 3 + used))
        },
    }
}

/// Every outcome survives the trip through its byte.
pub proof fn code_round_trip(code: ReplyCode)
    ensures
        code_of(code_byte(code)) == Some(code),
{
}

/// Decoding an encoded reply gives the reply back and consumes exactly the
/// encoding, whatever follows it.
pub proof fn reply_decode_inverts_encode(reply: ReplyModel, rest: Seq<u8>)
    requires
        reply.bound.representable(),
    ensures
        parse_reply(reply.wire() + rest) == Ok::<(ReplyModel, nat), SocksError>(
            (reply, reply.wire().len()),
        ),
{
    let buf = reply.wire() + rest;
    address_decode_inverts_encode(reply.bound, rest);
    assert(buf.skip(3) =~= reply.bound.wire() + rest);
    assert(buf[1] == code_byte(reply.code));
    assert(buf[2] == 0);
    code_round_trip(reply.code);
}

/// Encoding a decoded reply gives back exactly the bytes consumed.
pub proof fn reply_encode_inverts_decode(buf: Seq<u8>)
    requires
        parse_reply(buf) is Ok,
    ensures
        parse_reply(buf).unwrap().0.bound.representable(),
        parse_reply(buf).unwrap().1 <= buf.len(),
        parse_reply(buf).unwrap().0.wire() == buf.take(parse_reply(buf).unwrap().1 as int),
{
    let (reply, used) = parse_reply(buf).unwrap();
    address_encode_inverts_decode(buf.skip(3));
    let inner = parse_address(buf.skip(3)).unwrap().1;
    assert(buf.skip(3).take(inner as int) =~= buf.subrange(3, 3 + inner as int));
    assert(reply.wire() =~= buf.take(used as int));
}

} // verus!
