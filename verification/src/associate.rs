//! The decisions of a UDP relay: what to do with each datagram that arrives
//! at the relay socket.

use vstd::prelude::*;
use crate::address::Address;
use crate::address::AddressModel;
use crate::address::Host;
use crate::address::HostModel;
use crate::datagram::datagram_decode_inverts_encode;
use crate::datagram::decode_datagram;
use crate::datagram::encode_datagram;
use crate::datagram::parse_datagram;
use crate::datagram::DatagramModel;
use crate::error::SocksError;
use crate::resolver::host_text;
use crate::resolver::resolve;
use crate::resolver::Target;

verus! {

/// How long an association may stay without traffic, in seconds.
pub const IDLE_LIMIT_SECS: u64 = 120;

/// What to do with a datagram that arrived at the relay socket.
#[derive(Debug, PartialEq, Eq)]
pub enum Delivery {
    /// It is the client's: send the payload on to the target.
    Forward { target: Target, payload: Vec<u8> },
    /// It is an answer: send the packet, which wraps it, to the client.
    Return { client: Address, packet: Vec<u8> },
    /// Let it fall.
    Drop,
}

/// The mathematical value of a [`Delivery`].
pub enum DeliveryModel {
    Forward { target: (Seq<char>, u16), payload: Seq<u8> },
    Return { client: AddressModel, packet: Seq<u8> },
    Drop,
}

impl View for Delivery {
    type V = DeliveryModel;

    open spec fn view(&self) -> DeliveryModel {
        match self {
            Delivery::Forward { target, payload } => DeliveryModel::Forward {
                target: target@,
                payload: payload@,
            },
            Delivery::Return { client, packet } => DeliveryModel::Return {
                client: client@,
                packet: packet@,
            },
            Delivery::Drop => DeliveryModel::Drop,
        }
    }
}

/// One UDP association: the host of the client that asked for it, the
/// address from which that client last sent a well-formed datagram, the
/// ports on the client's own host that the client has sent datagrams to,
/// and whether the association is still open.
#[derive(Debug)]
pub struct Association {
    client_host: Host,
    client: Option<Address>,
    addressed: Vec<u16>,
    open: bool,
}

/// The mathematical value of an [`Association`].
pub struct AssociationModel {
    /// The host of the client, as seen on its control connection.
    pub client_host: HostModel,
    /// Where the client last sent a well-formed datagram from.
    pub client: Option<AddressModel>,
    /// The ports on the client's own host that the client has sent
    /// datagrams to, each once, in the order in which they were first
    /// addressed. A datagram from one of them is an answer, although it
    /// comes from the client's host.
    pub addressed: Seq<u16>,
    /// Whether the association still relays. It stops when the client's
    /// control connection closes or the relay has been idle for too long.
    pub open: bool,
}

impl View for Association {
    type V = AssociationModel;

    closed spec fn view(&self) -> AssociationModel {
        AssociationModel {
            client_host: self.client_host@,
            client: match self.client {
                Some(address) => Some(address@),
                None => None,
            },
            addressed: self.addressed@,
            open: self.open,
        }
    }
}

/// Whether every byte is zero.
pub open spec fn zeros(bytes: Seq<u8>) -> bool {
    forall|i: int| 0 <= i < bytes.len() ==> bytes[i] == 0
}

/// Whether a host is the wildcard of its family: an IP address of zeros
/// only.
pub open spec fn is_wildcard(host: HostModel) -> bool {
    match host {
        HostModel::V4(octets) => zeros(octets),
        HostModel::V6(octets) => zeros(octets),
        HostModel::Domain(_) => false,
    }
}

/// The address to tell the client for its relay socket. A socket bound to
/// the wildcard is reachable wherever the server is, so the client is told
/// the host at which it reached the server, with the socket's port; a
/// socket bound to an address of its own is told as it is.
pub open spec fn advertised(bound: AddressModel, reached_at: Option<AddressModel>) -> AddressModel {
    match reached_at {
        Some(local) if is_wildcard(bound.host) => AddressModel {
            host: local.host,
            port: bound.port,
        },
        _ => bound,
    }
}

impl AssociationModel {
    /// The state after the relay has seen no traffic for `seconds`: closed
    /// once the limit is reached.
    pub open spec fn after_idle(self, seconds: u64) -> AssociationModel {
        if seconds >= IDLE_LIMIT_SECS {
            AssociationModel { open: false, ..self }
        } else {
            self
        }
    }

    /// The state after the client has sent a datagram to `destination`. A
    /// destination on the client's own host is remembered by its port, so
    /// that its answers can be told from the client's datagrams; any other
    /// destination needs no remembering.
    pub open spec fn noting(self, destination: AddressModel) -> AssociationModel {
        if destination.host == self.client_host && !self.addressed.contains(destination.port) {
            AssociationModel { addressed: self.addressed.push(destination.port), ..self }
        } else {
            self
        }
    }

    /// Whether a datagram from `source` is an answer for the client, and not
    /// a datagram of the client's. Whatever comes from another host is an
    /// answer. From the client's own host, it is an answer when the client
    /// has sent a datagram to that very address, unless the address is the
    /// one at which the client itself was last seen.
    pub open spec fn is_answer(self, source: AddressModel) -> bool {
        source.host != self.client_host || (self.addressed.contains(source.port) && self.client
            != Some(source))
    }

    /// The state after a datagram arrived from `source`, and what to do
    /// with the datagram. An answer is wrapped in a header that names its
    /// sender and goes to the client, if the client's address is known.
    /// A datagram of the client's must carry a valid header; its payload
    /// goes on to the destination that the header names, its source becomes
    /// the client's address, and its destination is noted. Everything else
    /// is dropped and changes nothing, and so is every datagram once the
    /// association is closed.
    pub open spec fn on_datagram(self, source: AddressModel, bytes: Seq<u8>) -> (
        AssociationModel,
        DeliveryModel,
    ) {
        if !self.open {
            (self, DeliveryModel::Drop)
        } else if self.is_answer(source) {
            match self.client {
                Some(client) if source.representable() => (
                    self,
                    DeliveryModel::Return {
                        client,
                        packet: (DatagramModel { address: source, payload: bytes }).wire(),
                    },
                ),
                _ => (self, DeliveryModel::Drop),
            }
        } else {
            match parse_datagram(bytes) {
                Ok(datagram) => (
                    (AssociationModel { client: Some(source), ..self }).noting(datagram.address),
                    DeliveryModel::Forward {
                        target: (host_text(datagram.address.host), datagram.address.port),
                        payload: datagram.payload,
                    },
                ),
                Err(_) => (self, DeliveryModel::Drop),
            }
        }
    }
}

/// Whether two byte strings are equal.
pub fn same_bytes(left: &[u8], right: &[u8]) -> (same: bool)
    ensures
        same == (left@ == right@),
{
    if left.len() != right.len() {
        return false;
    }
    let mut i: usize = 0;
    while i < left.len()
        invariant
            i <= left@.len(),
            left@.len() == right@.len(),
            forall|k: int| 0 <= k < i ==> left@[k] == right@[k],
        decreases left@.len() - i,
    {
        if left[i] != right[i] {
            return false;
        }
        i += 1;
    }
    assert(left@ =~= right@);
    true
}

/// Whether every byte is zero.
pub fn all_zero(bytes: &[u8]) -> (zero: bool)
    ensures
        zero == zeros(bytes@),
{
    let mut i: usize = 0;
    while i < bytes.len()
        invariant
            i <= bytes@.len(),
            forall|k: int| 0 <= k < i ==> bytes@[k] == 0,
        decreases bytes@.len() - i,
    {
        if bytes[i] != 0 {
            return false;
        }
        i += 1;
    }
    true
}

/// Whether a host is the wildcard of its family.
pub fn is_wildcard_host(host: &Host) -> (wildcard: bool)
    ensures
        wildcard == is_wildcard(host@),
{
    match host {
        Host::V4(octets) => all_zero(octets.as_slice()),
        Host::V6(octets) => all_zero(octets.as_slice()),
        Host::Domain(_) => false,
    }
}

/// The address to tell the client for its relay socket: the socket's own,
/// unless that is the wildcard and the host at which the client reached the
/// server is known.
pub fn relay_endpoint(bound: Address, reached_at: Option<Address>) -> (endpoint: Address)
    ensures
        endpoint@ == advertised(
            bound@,
            match reached_at {
                Some(local) => Some(local@),
                None => None,
            },
        ),
{
    let wildcard = is_wildcard_host(&bound.host);
    match reached_at {
        Some(local) => {
            if wildcard {
                Address { host: local.host, port: bound.port }
            } else {
                bound
            }
        },
        None => bound,
    }
}

/// Whether a port is among those listed.
pub fn has_port(ports: &[u16], port: u16) -> (found: bool)
    ensures
        found == ports@.contains(port),
{
    let mut i: usize = 0;
    while i < ports.len()
        invariant
            i <= ports@.len(),
            forall|k: int| 0 <= k < i ==> ports@[k] != port,
        decreases ports@.len() - i,
    {
        if ports[i] == port {
            return true;
        }
        i += 1;
    }
    false
}

/// Whether two addresses are the same: the same host and the same port.
pub fn same_address(left: &Address, right: &Address) -> (same: bool)
    ensures
        same == (left@ == right@),
{
    left.port == right.port && same_host(&left.host, &right.host)
}

/// Whether two hosts are the same: the same family and the same bytes.
pub fn same_host(left: &Host, right: &Host) -> (same: bool)
    ensures
        same == (left@ == right@),
{
    match (left, right) {
        (Host::V4(a), Host::V4(b)) => same_bytes(a.as_slice(), b.as_slice()),
        (Host::Domain(a), Host::Domain(b)) => same_bytes(a.as_slice(), b.as_slice()),
        (Host::V6(a), Host::V6(b)) => same_bytes(a.as_slice(), b.as_slice()),
        _ => false,
    }
}

impl Association {
    /// An association for the client at `client_host`, which has not sent a
    /// datagram yet.
    pub fn new(client_host: Host) -> (association: Association)
        ensures
            association@ == (AssociationModel {
                client_host: client_host@,
                client: None,
                addressed: Seq::empty(),
                open: true,
            }),
    {
        Association { client_host, client: None, addressed: Vec::new(), open: true }
    }

    /// Whether the association still relays.
    pub fn is_open(&self) -> (open: bool)
        ensures
            open == self@.open,
    {
        self.open
    }

    /// Closes the association: the control connection has closed, or the
    /// relay has been idle for too long. Nothing is relayed from now on.
    pub fn close(&mut self)
        ensures
            final(self)@ == (AssociationModel { open: false, ..old(self)@ }),
    {
        self.open = false;
    }

    /// Reports that the relay has seen no traffic for `seconds`. The
    /// association closes once the limit is reached; the result says whether
    /// it is still open.
    pub fn on_idle(&mut self, seconds: u64) -> (open: bool)
        ensures
            final(self)@ == old(self)@.after_idle(seconds),
            open == final(self)@.open,
    {
        if seconds >= IDLE_LIMIT_SECS {
            self.open = false;
        }
        self.open
    }

    /// Where the client last sent a well-formed datagram from.
    pub fn client(&self) -> (client: Option<&Address>)
        ensures
            match client {
                Some(address) => self@.client == Some(address@),
                None => self@.client is None,
            },
    {
        self.client.as_ref()
    }

    /// Notes that a datagram of the client's went to `destination`. The
    /// association notes by itself the destination that a header names; this
    /// is for the address that a named destination turned out to have.
    pub fn note_destination(&mut self, destination: &Address)
        ensures
            final(self)@ == old(self)@.noting(destination@),
    {
        if same_host(&destination.host, &self.client_host) && !has_port(
            self.addressed.as_slice(),
            destination.port,
        ) {
            self.addressed.push(destination.port);
        }
    }

    /// Whether a datagram from `source` is an answer for the client.
    pub fn takes_for_answer(&self, source: &Address) -> (answer: bool)
        ensures
            answer == self@.is_answer(source@),
    {
        if !same_host(&source.host, &self.client_host) {
            return true;
        }
        let from_client = match &self.client {
            Some(client) => same_address(client, source),
            None => false,
        };
        has_port(self.addressed.as_slice(), source.port) && !from_client
    }

    /// Decides what to do with a datagram that arrived from `source`.
    pub fn on_datagram(&mut self, source: Address, bytes: &[u8]) -> (delivery: Delivery)
        ensures
            (final(self)@, delivery@) == old(self)@.on_datagram(source@, bytes@),
    {
        if !self.open {
            return Delivery::Drop;
        }
        if self.takes_for_answer(&source) {
            match &self.client {
                Some(client) => match encode_datagram(&source, bytes) {
                    Ok(packet) => Delivery::Return { client: client.clone(), packet },
                    Err(_) => Delivery::Drop,
                },
                None => Delivery::Drop,
            }
        } else {
            match decode_datagram(bytes) {
                Ok(datagram) => {
                    self.client = Some(source);
                    self.note_destination(&datagram.address);
                    Delivery::Forward {
                        target: resolve(&datagram.address),
                        payload: datagram.payload,
                    }
                },
                Err(_) => Delivery::Drop,
            }
        }
    }
}

/// A datagram with a fragment number other than zero is never forwarded.
/// Coming from the client, it is dropped and leaves the association as it
/// was, so that the datagrams after it are served as if it had never come.
pub proof fn fragment_is_dropped(association: AssociationModel, source: AddressModel, bytes: Seq<u8>)
    requires
        bytes.len() >= 3,
        bytes[2] != 0,
    ensures
        !(association.on_datagram(source, bytes).1 is Forward),
        !association.is_answer(source) ==> association.on_datagram(source, bytes) == (
            association,
            DeliveryModel::Drop,
        ),
{
}

/// An answer reaches the client wrapped in a header that names exactly its
/// sender, with the payload untouched. That is so for every sender on
/// another host than the client's, and for every sender on the client's
/// host that the client has sent a datagram to and that is not the client
/// itself.
pub proof fn answer_names_its_sender(
    association: AssociationModel,
    sender: AddressModel,
    payload: Seq<u8>,
)
    requires
        association.open,
        association.client is Some,
        sender.representable(),
    ensures
        sender.host != association.client_host || (association.addressed.contains(sender.port)
            && association.client != Some(sender)) ==> ({
            let (next, delivery) = association.on_datagram(sender, payload);
            &&& next == association
            &&& delivery matches DeliveryModel::Return { client, packet }
            &&& delivery->Return_client == association.client.unwrap()
            &&& parse_datagram(delivery->Return_packet) == Ok::<DatagramModel, SocksError>(
                DatagramModel { address: sender, payload },
            )
        }),
{
    datagram_decode_inverts_encode(DatagramModel { address: sender, payload });
}

/// A well-formed datagram of the client's goes to the destination that its
/// header names, payload only; the client is from then on reached at the
/// datagram's source, and the destination is noted. A datagram from the
/// client's host is the client's when it comes from where the client was
/// last seen, or from a port that the client has not sent to.
pub proof fn client_datagram_is_forwarded(
    association: AssociationModel,
    source: AddressModel,
    destination: AddressModel,
    payload: Seq<u8>,
)
    requires
        association.open,
        source.host == association.client_host,
        destination.representable(),
    ensures
        association.client == Some(source) || !association.addressed.contains(source.port)
            ==> association.on_datagram(
            source,
            (DatagramModel { address: destination, payload }).wire(),
        ) == (
            (AssociationModel { client: Some(source), ..association }).noting(destination),
            DeliveryModel::Forward {
                target: (host_text(destination.host), destination.port),
                payload,
            },
        ),
{
    datagram_decode_inverts_encode(DatagramModel { address: destination, payload });
}

/// The round trip: the client sends a datagram to a destination, the
/// destination answers, and the client receives the answer in a header
/// that names the destination exactly, address and port. The destination
/// may be on any host, the client's own included; it must only not be the
/// very address that the client sends from.
pub proof fn round_trip_names_the_destination(
    association: AssociationModel,
    source: AddressModel,
    destination: AddressModel,
    payload: Seq<u8>,
    answer: Seq<u8>,
)
    requires
        association.open,
        source.host == association.client_host,
        association.client == Some(source) || !association.addressed.contains(source.port),
        destination.representable(),
        destination != source,
    ensures
        ({
            let sent = (DatagramModel { address: destination, payload }).wire();
            let (waiting, outbound) = association.on_datagram(source, sent);
            let (after, inbound) = waiting.on_datagram(destination, answer);
            &&& outbound == DeliveryModel::Forward {
                target: (host_text(destination.host), destination.port),
                payload,
            }
            &&& inbound == DeliveryModel::Return {
                client: source,
                packet: (DatagramModel { address: destination, payload: answer }).wire(),
            }
            &&& parse_datagram(inbound->Return_packet) == Ok::<DatagramModel, SocksError>(
                DatagramModel { address: destination, payload: answer },
            )
            &&& after == waiting
        }),
{
    client_datagram_is_forwarded(association, source, destination, payload);
    let waiting = (AssociationModel { client: Some(source), ..association }).noting(destination);
    if destination.host == association.client_host {
        if association.addressed.contains(destination.port) {
            assert(waiting.addressed.contains(destination.port));
        } else {
            assert(waiting.addressed == association.addressed.push(destination.port));
            assert(waiting.addressed[association.addressed.len() as int] == destination.port);
        }
    }
    answer_names_its_sender(waiting, destination, answer);
}

/// The ports that an association remembers stay distinct when a
/// destination is noted: each port is noted once, so there are never more
/// than there are ports.
pub proof fn noted_ports_stay_distinct(association: AssociationModel, destination: AddressModel)
    requires
        association.addressed.no_duplicates(),
    ensures
        association.noting(destination).addressed.no_duplicates(),
{
    if destination.host == association.client_host && !association.addressed.contains(
        destination.port,
    ) {
        let before = association.addressed;
        let grown = before.push(destination.port);
        assert forall|i: int, j: int| 0 <= i < grown.len() && 0 <= j < grown.len() && i != j
            implies grown[i] != grown[j] by {
            if i < before.len() && j >= before.len() {
                assert(before.contains(before[i]));
            } else if j < before.len() && i >= before.len() {
                assert(before.contains(before[j]));
            }
        }
    }
}

/// The ports that an association remembers stay distinct whatever arrives.
pub proof fn addressed_ports_stay_distinct(
    association: AssociationModel,
    source: AddressModel,
    bytes: Seq<u8>,
)
    requires
        association.addressed.no_duplicates(),
    ensures
        association.on_datagram(source, bytes).0.addressed.no_duplicates(),
{
    if parse_datagram(bytes) is Ok {
        noted_ports_stay_distinct(
            AssociationModel { client: Some(source), ..association },
            parse_datagram(bytes).unwrap().address,
        );
    }
}

/// Idling never reopens an association, and changes nothing but whether it
/// is open.
pub proof fn idle_only_closes(association: AssociationModel, seconds: u64)
    ensures
        association.after_idle(seconds).open ==> association.open,
        association.after_idle(seconds).open <==> association.open && seconds < IDLE_LIMIT_SECS,
        association.after_idle(seconds).client == association.client,
        association.after_idle(seconds).addressed == association.addressed,
        association.after_idle(seconds).client_host == association.client_host,
{
}

/// A closed association relays nothing and stays as it is.
pub proof fn closed_association_is_silent(
    association: AssociationModel,
    source: AddressModel,
    bytes: Seq<u8>,
)
    requires
        !association.open,
    ensures
        association.on_datagram(source, bytes) == (association, DeliveryModel::Drop),
{
}

} // verus!
