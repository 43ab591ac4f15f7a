//! The proxy request: version, command, a reserved byte, and the destination.

use vstd::prelude::*;
use vstd::slice::slice_subrange;
use crate::address::address_decode_inverts_encode;
use crate::address::address_encode_inverts_decode;
use crate::address::decode_address;
use crate::address::encode_address;
use crate::address::parse_address;
use crate::address::Address;
use crate::address::AddressModel;
use crate::address::ATYP_DOMAIN_NAME;
use crate::address::ATYP_IPV4;
use crate::address::ATYP_IPV6;
use crate::error::SocksError;
use crate::greeting::VERSION;

verus! {

/// Command byte of CONNECT.
pub const CMD_CONNECT: u8 = 1;

/// Command byte of UDP ASSOCIATE.
pub const CMD_ASSOCIATE: u8 = 3;

/// What a client may ask the proxy to do.
#[derive(Clone, Copy, Debug, PartialEq, Eq, Structural)]
pub enum Command {
    /// Open a TCP connection to the destination and relay bytes.
    Connect,
    /// Set up a UDP relay.
    Associate,
}

/// The command that a byte names, if any.
pub open spec fn command_of(byte: u8) -> Option<Command> {
    if byte == CMD_CONNECT {
        Some(Command::Connect)
    } else if byte == CMD_ASSOCIATE {
        Some(Command::Associate)
    } else {
        None
    }
}

/// The byte that names a command.
pub open spec fn command_byte(command: Command) -> u8 {
    match command {
        Command::Connect => CMD_CONNECT,
        Command::Associate => CMD_ASSOCIATE,
    }
}

/// A decoded request.
#[derive(Debug, PartialEq, Eq)]
pub struct Request {
    pub command: Command,
    pub address: Address,
}

impl Clone for Request {
    fn clone(&self) -> (copy: Request)
        ensures
            copy@ == self@,
    {
        Request { command: self.command, address: self.address.clone() }
    }
}

/// The mathematical value of a [`Request`].
pub struct RequestModel {
    pub command: Command,
    pub address: AddressModel,
}

impl View for Request {
    type V = RequestModel;

    open spec fn view(&self) -> RequestModel {
        RequestModel { command: self.command, address: self.address@ }
    }
}

impl RequestModel {
    /// The wire encoding of a request whose address is representable. The
    /// reserved byte is written as zero.
    pub open spec fn wire(self) -> Seq<u8> {
        seq![VERSION, command_byte(self.command), 0u8] + self.address.wire()
    }
}

/// What decoding a request from the front of `buf` yields: the request and
/// the number of bytes it occupies. The version is checked first, then the
/// address is read, and the command is looked at last. The reserved byte is
/// not inspected.
pub open spec fn parse_request(buf: Seq<u8>) -> Result<(RequestModel, nat), SocksError> {
    if buf.len() < 1 {
        Err(SocksError::FramingError)
    } else if buf[0] != VERSION {
        Err(SocksError::ProtocolVersionMismatch)
    } else if buf.len() < 4 {
        Err(SocksError::FramingError)
    } else {
        match parse_address(buf.skip(3)) {
            Err(e) => Err(e),
            Ok((address, used)) => match command_of(buf[1]) {
                None => Err(SocksError::UnsupportedCommand),
                Some(command) => Ok((RequestModel { command, address }, (3 + used) as nat)),
            },
        }
    }
}

/// How long the request that starts `buf` is, as far as `buf` tells: four
/// bytes until the address type is known, then what the family needs; for a
/// name, one byte more until its length is known.
pub open spec fn request_span(buf: Seq<u8>) -> nat {
    if buf.len() < 4 {
        4
    } else if buf[3] == ATYP_IPV4 {
        10
    } else if buf[3] == ATYP_IPV6 {
        22
    } else if buf[3] == ATYP_DOMAIN_NAME {
        if buf.len() < 5 {
            5
        } else {
            (7 + buf[4]) as nat
        }
    } else {
        4
    }
}

/// Reads a command byte.
pub fn decode_command(byte: u8) -> (command: Option<Command>)
    ensures
        command == command_of(byte),
{
    if byte == CMD_CONNECT {
        Some(Command::Connect)
    } else if byte == CMD_ASSOCIATE {
        Some(Command::Associate)
    } else {
        None
    }
}

/// Writes a command byte.
pub fn encode_command(command: Command) -> (byte: u8)
    ensures
        byte == command_byte(command),
{
    match command {
        Command::Connect => CMD_CONNECT,
        Command::Associate => CMD_ASSOCIATE,
    }
}

/// Decodes a request from the front of `buf`. On success the second
/// component is the number of bytes consumed.
pub fn decode_request(buf: &[u8]) -> (decoded: Result<(Request, usize), SocksError>)
    ensures
        match decoded {
            Ok((request, used)) => parse_request(buf@) == Ok::<(RequestModel, nat), SocksError>(
                (request@, used as nat),
            ),
            Err(e) => parse_request(buf@) == Err::<(RequestModel, nat), SocksError>(e),
        },
{
    if buf.len() < 1 {
        return Err(SocksError::FramingError);
    }
    if buf[0] != VERSION {
        return Err(SocksError::ProtocolVersionMismatch);
    }
    if buf.len() < 4 {
        return Err(SocksError::FramingError);
    }
    let rest = slice_subrange(buf, 3, buf.len());
    assert(rest@ =~= buf@.skip(3));
    match decode_address(rest) {
        Err(e) => Err(e),
        Ok((address, used)) => {
            proof {
                address_encode_inverts_decode(rest@);
            }
            match decode_command(buf[1]) {
                None => Err(SocksError::UnsupportedCommand),
                Some(command) => Ok((Request { command, address }, 3 + used)),
            }
        },
    }
}

/// How many more bytes the request that starts `buf` needs before it is
/// complete; zero once it is.
pub fn request_shortfall(buf: &[u8]) -> (missing: usize)
    ensures
        missing == if buf@.len() < request_span(buf@) {
            request_span(buf@) - buf@.len()
        } else {
            0
        },
{
    let span: usize = if buf.len() < 4 {
        4
    } else if buf[3] == ATYP_IPV4 {
        10
    } else if buf[3] == ATYP_IPV6 {
        22
    } else if buf[3] == ATYP_DOMAIN_NAME {
        if buf.len() < 5 {
            5
        } else {
            7 + buf[4] as usize
        }
    } else {
        4
    };
    if buf.len() < span {
        span - buf.len()
    } else {
        0
    }
}

/// Encodes a request. An address that the wire format cannot carry is
/// refused.
pub fn encode_request(request: &Request) -> (encoded: Result<Vec<u8>, SocksError>)
    ensures
        request@.address.representable() ==> encoded.is_ok() && encoded.unwrap()@
            == request@.wire(),
        !request@.address.representable() ==> encoded == Err::<Vec<u8>, SocksError>(
            SocksError::FramingError,
        ),
{
    let mut out: Vec<u8> = Vec::new();
    out.push(VERSION);
    out.push(encode_command(request.command));
    out.push(0);
    assert(out@ =~= seq![VERSION, command_byte(request.command), 0u8]);
    match encode_address(&request.address, &mut out) {
        Ok(()) => Ok(out),
        Err(e) => Err(e),
    }
}

/// Decoding an encoded request gives the request back and consumes exactly
/// the encoding, whatever follows it.
pub proof fn request_decode_inverts_encode(request: RequestModel, rest: Seq<u8>)
    requires
        request.address.representable(),
    ensures
        parse_request(request.wire() + rest) == Ok::<(RequestModel, nat), SocksError>(
            (request, request.wire().len()),
        ),
{
    let buf = request.wire() + rest;
    address_decode_inverts_encode(request.address, rest);
    assert(buf.skip(3) =~= request.address.wire() + rest);
    assert(buf[1] == command_byte(request.command));
}

/// Encoding a decoded request gives back exactly the bytes consumed,
/// provided the reserved byte was zero: the decoder does not keep it.
pub proof fn request_encode_inverts_decode(buf: Seq<u8>)
    requires
        parse_request(buf) is Ok,
        buf[2] == 0,
    ensures
        parse_request(buf).unwrap().0.address.representable(),
        parse_request(buf).unwrap().1 <= buf.len(),
        parse_request(buf).unwrap().0.wire() == buf.take(parse_request(buf).unwrap().1 as int),
{
    let (request, used) = parse_request(buf).unwrap();
    address_encode_inverts_decode(buf.skip(3));
    let inner = parse_address(buf.skip(3)).unwrap().1;
    assert(buf.skip(3).take(inner as int) =~= buf.subrange(3, 3 + inner as int));
    assert(request.wire() =~= buf.take(used as int));
}

/// A request is complete exactly when the buffer is as long as its span:
/// the decoder reports a framing error only while bytes are missing, and on
/// success it consumes the span.
pub proof fn request_span_is_exact(buf: Seq<u8>)
    ensures
        parse_request(buf) == Err::<(RequestModel, nat), SocksError>(SocksError::FramingError)
            ==> buf.len() < request_span(buf),
        parse_request(buf) is Ok ==> parse_request(buf).unwrap().1 == request_span(buf),
        buf.len() < request_span(buf) ==> parse_request(buf) is Err,
{
    if buf.len() >= 5 {
        assert(buf.skip(3)[0] == buf[3]);
        assert(buf.skip(3).skip(1)[0] == buf[4]);
    } else if buf.len() >= 4 {
        assert(buf.skip(3)[0] == buf[3]);
    }
}

} // verus!
