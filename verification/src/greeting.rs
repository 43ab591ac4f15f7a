//! The opening exchange: the client's greeting with the authentication
//! methods it offers, and the server's choice among them.

use vstd::prelude::*;
use crate::address::take_field;
use vstd::slice::slice_to_vec;
use crate::error::SocksError;

verus! {

/// The protocol version that every message starts with.
pub const VERSION: u8 = 5;

/// The method "no authentication required".
pub const METHOD_NO_AUTH: u8 = 0;

/// The server's answer when none of the offered methods is acceptable.
pub const METHOD_NONE_ACCEPTABLE: u8 = 255;

/// The most methods that the one-byte count can announce.
pub const MAX_METHODS: usize = 255;

/// A client's greeting: the methods it offers, in the order it listed them.
#[derive(Debug, PartialEq, Eq)]
pub struct Greeting {
    pub methods: Vec<u8>,
}

impl Clone for Greeting {
    fn clone(&self) -> (copy: Greeting)
        ensures
            copy@ == self@,
    {
        Greeting { methods: slice_to_vec(self.methods.as_slice()) }
    }
}

impl View for Greeting {
    type V = Seq<u8>;

    open spec fn view(&self) -> Seq<u8> {
        self.methods@
    }
}

/// What decoding a greeting from the front of `buf` yields: the offered
/// methods and the number of bytes the greeting occupies.
pub open spec fn parse_greeting(buf: Seq<u8>) -> Result<(Seq<u8>, nat), SocksError> {
    if buf.len() < 1 {
        Err(SocksError::FramingError)
    } else if buf[0] != VERSION {
        Err(SocksError::ProtocolVersionMismatch)
    } else if buf.len() < 2 {
        Err(SocksError::FramingError)
    } else if buf.len() < 2 + buf[1] {
        Err(SocksError::FramingError)
    } else {
        Ok((buf.subrange(2, 2 + buf[1]), (2 + buf[1]) as nat))
    }
}

/// The wire encoding of a greeting that offers at most 255 methods.
pub open spec fn greeting_wire(methods: Seq<u8>) -> Seq<u8> {
    seq![VERSION, methods.len() as u8] + methods
}

/// How long the greeting that starts `buf` is, as far as `buf` tells: two
/// bytes until the count is known, then the count more.
pub open spec fn greeting_span(buf: Seq<u8>) -> nat {
    if buf.len() < 2 {
        2
    } else {
        (2 + buf[1]) as nat
    }
}

/// The method the server picks: "no authentication" whenever it is offered,
/// none otherwise.
pub open spec fn chosen_method(methods: Seq<u8>) -> Result<u8, SocksError> {
    if methods.contains(METHOD_NO_AUTH) {
        Ok(METHOD_NO_AUTH)
    } else {
        Err(SocksError::NoAcceptableAuthMethod)
    }
}

/// The two bytes of a method-selection message.
pub open spec fn selection_wire(method: u8) -> Seq<u8> {
    seq![VERSION, method]
}

/// What decoding a method selection from the front of `buf` yields.
pub open spec fn parse_selection(buf: Seq<u8>) -> Result<(u8, nat), SocksError> {
    if buf.len() < 1 {
        Err(SocksError::FramingError)
    } else if buf[0] != VERSION {
        Err(SocksError::ProtocolVersionMismatch)
    } else if buf.len() < 2 {
        Err(SocksError::FramingError)
    } else {
        Ok((buf[1], 2nat))
    }
}

/// Decodes a greeting from the front of `buf`. A first byte other than 5 is
/// a version mismatch; a buffer that ends before the announced methods do is
/// a framing error. On success the second component is the number of bytes
/// consumed.
pub fn decode_greeting(buf: &[u8]) -> (decoded: Result<(Greeting, usize), SocksError>)
    ensures
        match decoded {
            Ok((greeting, used)) => parse_greeting(buf@) == Ok::<(Seq<u8>, nat), SocksError>(
                (greeting@, used as nat),
            ),
            Err(e) => parse_greeting(buf@) == Err::<(Seq<u8>, nat), SocksError>(e),
        },
{
    if buf.len() < 1 {
        return Err(SocksError::FramingError);
    }
    if buf[0] != VERSION {
        return Err(SocksError::ProtocolVersionMismatch);
    }
    if buf.len() < 2 {
        return Err(SocksError::FramingError);
    }
    let count: usize = buf[1] as usize;
    match take_field(buf, 2, count) {
        Ok(methods) => Ok((Greeting { methods }, 2 + count)),
        Err(e) => Err(e),
    }
}

/// How many more bytes the greeting that starts `buf` needs before it is
/// complete; zero once it is.
pub fn greeting_shortfall(buf: &[u8]) -> (missing: usize)
    ensures
        missing == if buf@.len() < greeting_span(buf@) {
            greeting_span(buf@) - buf@.len()
        } else {
            0
        },
{
    let span: usize = if buf.len() < 2 {
        2
    } else {
        2 + buf[1] as usize
    };
    if buf.len() < span {
        span - buf.len()
    } else {
        0
    }
}

/// Encodes a greeting. More than 255 methods cannot be counted in one byte
/// and are refused.
pub fn encode_greeting(greeting: &Greeting) -> (encoded: Result<Vec<u8>, SocksError>)
    ensures
        greeting@.len() <= MAX_METHODS ==> encoded.is_ok() && encoded.unwrap()@ == greeting_wire(
            greeting@,
        ),
        greeting@.len() > MAX_METHODS ==> encoded == Err::<Vec<u8>, SocksError>(
            SocksError::FramingError,
        ),
{
    if greeting.methods.len() > MAX_METHODS {
        return Err(SocksError::FramingError);
    }
    let mut out: Vec<u8> = Vec::new();
    out.push(VERSION);
    out.push(greeting.methods.len() as u8);
    out.extend_from_slice(greeting.methods.as_slice());
    assert(out@ =~= greeting_wire(greeting@));
    Ok(out)
}

/// Picks the method for a greeting: "no authentication" whenever the client
/// offers it; otherwise the negotiation fails.
pub fn select_method(greeting: &Greeting) -> (choice: Result<u8, SocksError>)
    ensures
        choice == chosen_method(greeting@),
{
    let mut i: usize = 0;
    while i < greeting.methods.len()
        invariant
            i <= greeting.methods@.len(),
            forall|k: int| 0 <= k < i ==> greeting.methods@[k] != METHOD_NO_AUTH,
        decreases greeting.methods@.len() - i,
    {
        if greeting.methods[i] == METHOD_NO_AUTH {
            return Ok(METHOD_NO_AUTH);
        }
        i += 1;
    }
    Err(SocksError::NoAcceptableAuthMethod)
}

/// Encodes the server's method selection.
pub fn encode_selection(method: u8) -> (encoded: Vec<u8>)
    ensures
        encoded@ == selection_wire(method),
{
    let mut out: Vec<u8> = Vec::new();
    out.push(VERSION);
    out.push(method);
    assert(out@ =~= selection_wire(method));
    out
}

/// Decodes a method selection from the front of `buf`.
pub fn decode_selection(buf: &[u8]) -> (decoded: Result<(u8, usize), SocksError>)
    ensures
        match decoded {
            Ok((method, used)) => parse_selection(buf@) == Ok::<(u8, nat), SocksError>(
                (method, used as nat),
            ),
            Err(e) => parse_selection(buf@) == Err::<(u8, nat), SocksError>(e),
        },
{
    if buf.len() < 1 {
        return Err(SocksError::FramingError);
    }
    if buf[0] != VERSION {
        return Err(SocksError::ProtocolVersionMismatch);
    }
    if buf.len() < 2 {
        return Err(SocksError::FramingError);
    }
    Ok((buf[1], 2))
}

/// Decoding an encoded greeting gives the methods back and consumes exactly
/// the encoding, whatever follows it.
pub proof fn greeting_decode_inverts_encode(methods: Seq<u8>, rest: Seq<u8>)
    requires
        methods.len() <= MAX_METHODS,
    ensures
        parse_greeting(greeting_wire(methods) + rest) == Ok::<(Seq<u8>, nat), SocksError>(
            (methods, greeting_wire(methods).len()),
        ),
{
    let buf = greeting_wire(methods) + rest;
    assert(buf[1] == methods.len() as u8);
    assert(buf.subrange(2, 2 + methods.len() as int) =~= methods);
}

/// Encoding a decoded greeting gives back exactly the bytes consumed.
pub proof fn greeting_encode_inverts_decode(buf: Seq<u8>)
    requires
        parse_greeting(buf) is Ok,
    ensures
        parse_greeting(buf).unwrap().0.len() <= MAX_METHODS,
        parse_greeting(buf).unwrap().1 <= buf.len(),
        greeting_wire(parse_greeting(buf).unwrap().0) == buf.take(
            parse_greeting(buf).unwrap().1 as int,
        ),
{
    let (methods, used) = parse_greeting(buf).unwrap();
    assert(greeting_wire(methods) =~= buf.take(used as int));
}

/// A method selection survives the trip through its encoding.
pub proof fn selection_round_trip(method: u8, rest: Seq<u8>)
    ensures
        parse_selection(selection_wire(method) + rest) == Ok::<(u8, nat), SocksError>(
            (method, 2nat),
        ),
{
    let buf = selection_wire(method) + rest;
    assert(buf[0] == VERSION);
    assert(buf[1] == method);
}

/// A greeting is complete exactly when the buffer is as long as its span:
/// the decoder reports a framing error only while bytes are missing, and on
/// success it consumes the span.
pub proof fn greeting_span_is_exact(buf: Seq<u8>)
    ensures
        parse_greeting(buf) == Err::<(Seq<u8>, nat), SocksError>(SocksError::FramingError)
            ==> buf.len() < greeting_span(buf),
        parse_greeting(buf) is Ok ==> parse_greeting(buf).unwrap().1 == greeting_span(buf),
        buf.len() < greeting_span(buf) ==> parse_greeting(buf) is Err,
{
}

} // verus!
