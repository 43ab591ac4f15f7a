//! The header that wraps every relayed UDP datagram: two reserved bytes, a
//! fragment number, and the address of the far end, followed by the payload.

use vstd::prelude::*;
use vstd::slice::slice_subrange;
use vstd::slice::slice_to_vec;
use crate::address::address_decode_inverts_encode;
use crate::address::address_encode_inverts_decode;
use crate::address::decode_address;
use crate::address::encode_address;
use crate::address::parse_address;
use crate::address::Address;
use crate::address::AddressModel;
use crate::error::SocksError;

verus! {

/// A relayed datagram without its header: the far end's address and the
/// payload. Fragments are not supported, so there is no fragment number.
#[derive(Debug, PartialEq, Eq)]
pub struct Datagram {
    pub address: Address,
    pub payload: Vec<u8>,
}

impl Clone for Datagram {
    fn clone(&self) -> (copy: Datagram)
        ensures
            copy@ == self@,
    {
        Datagram {
            address: self.address.clone(),
            payload: slice_to_vec(self.payload.as_slice()),
        }
    }
}

/// The mathematical value of a [`Datagram`].
pub struct DatagramModel {
    pub address: AddressModel,
    pub payload: Seq<u8>,
}

impl View for Datagram {
    type V = DatagramModel;

    open spec fn view(&self) -> DatagramModel {
        DatagramModel { address: self.address@, payload: self.payload@ }
    }
}

impl DatagramModel {
    /// The wire encoding of a datagram whose address is representable.
    pub open spec fn wire(self) -> Seq<u8> {
        seq![0u8, 0u8, 0u8] + self.address.wire() + self.payload
    }
}

/// What decoding a datagram yields. The two reserved bytes and the fragment
/// number must be zero and the address must decode; everything behind the
/// address is payload. Any other datagram has an invalid header.
pub open spec fn parse_datagram(buf: Seq<u8>) -> Result<DatagramModel, SocksError> {
    if buf.len() < 3 {
        Err(SocksError::InvalidDatagramHeader)
    } else if buf[0] != 0 || buf[1] != 0 || buf[2] != 0 {
        Err(SocksError::InvalidDatagramHeader)
    } else {
        match parse_address(buf.skip(3)) {
            Err(_) => Err(SocksError::InvalidDatagramHeader),
            Ok((address, used)) => Ok(
                DatagramModel { address, payload: buf.skip(3 + used as int) },
            ),
        }
    }
}

/// Decodes a datagram as it arrived. A datagram with a fragment number
/// other than zero, or with a header that is malformed in any other way, is
/// refused as a whole.
pub fn decode_datagram(buf: &[u8]) -> (decoded: Result<Datagram, SocksError>)
    ensures
        match decoded {
            Ok(datagram) => parse_datagram(buf@) == Ok::<DatagramModel, SocksError>(datagram@),
            Err(e) => e == SocksError::InvalidDatagramHeader && parse_datagram(buf@) == Err::<
                DatagramModel,
                SocksError,
            >(e),
        },
{
    if buf.len() < 3 {
        return Err(SocksError::InvalidDatagramHeader);
    }
    if buf[0] != 0 || buf[1] != 0 || buf[2] != 0 {
        return Err(SocksError::InvalidDatagramHeader);
    }
    let rest = slice_subrange(buf, 3, buf.len());
    assert(rest@ =~= buf@.skip(3));
    match decode_address(rest) {
        Err(_) => Err(SocksError::InvalidDatagramHeader),
        Ok((address, used)) => {
            proof {
                address_encode_inverts_decode(rest@);
            }
            let payload = slice_to_vec(slice_subrange(buf, 3 + used, buf.len()));
            assert(payload@ =~= buf@.skip(3 + used as int));
            Ok(Datagram { address, payload })
        },
    }
}

/// Wraps a payload in a header that names `address`. An address that the
/// wire format cannot carry is refused.
pub fn encode_datagram(address: &Address, payload: &[u8]) -> (encoded: Result<Vec<u8>, SocksError>)
    ensures
        address@.representable() ==> encoded.is_ok() && encoded.unwrap()@ == (DatagramModel {
            address: address@,
            payload: payload@,
        }).wire(),
        !address@.representable() ==> encoded == Err::<Vec<u8>, SocksError>(
            SocksError::FramingError,
        ),
{
    let mut out: Vec<u8> = Vec::new();
    out.push(0);
    out.push(0);
    out.push(0);
    assert(out@ =~= seq![0u8, 0u8, 0u8]);
    match encode_address(address, &mut out) {
        Ok(()) => {
            out.extend_from_slice(payload);
            Ok(out)
        },
        Err(e) => Err(e),
    }
}

/// Decoding a wrapped datagram gives back the very address and payload that
/// were wrapped.
pub proof fn datagram_decode_inverts_encode(datagram: DatagramModel)
    requires
        datagram.address.representable(),
    ensures
        parse_datagram(datagram.wire()) == Ok::<DatagramModel, SocksError>(datagram),
{
    let buf = datagram.wire();
    address_decode_inverts_encode(datagram.address, datagram.payload);
    assert(buf.skip(3) =~= datagram.address.wire() + datagram.payload);
    assert(buf.skip(3 + datagram.address.wire().len() as int) =~= datagram.payload);
}

/// Wrapping a decoded datagram again gives back the bytes that arrived.
pub proof fn datagram_encode_inverts_decode(buf: Seq<u8>)
    requires
        parse_datagram(buf) is Ok,
    ensures
        parse_datagram(buf).unwrap().address.representable(),
        parse_datagram(buf).unwrap().wire() == buf,
{
    let datagram = parse_datagram(buf).unwrap();
    address_encode_inverts_decode(buf.skip(3));
    let inner = parse_address(buf.skip(3)).unwrap().1;
    assert(buf.skip(3).take(inner as int) =~= buf.subrange(3, 3 + inner as int));
    assert(datagram.wire() =~= buf);
}

/// A datagram whose fragment number is not zero never decodes.
pub proof fn fragments_are_refused(buf: Seq<u8>)
    requires
        buf.len() >= 3,
        buf[2] != 0,
    ensures
        parse_datagram(buf) == Err::<DatagramModel, SocksError>(SocksError::InvalidDatagramHeader),
{
}

} // verus!
