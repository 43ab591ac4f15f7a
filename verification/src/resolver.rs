//! From a decoded destination to what the network layer connects to: a host
//! in text and a port.

use vstd::prelude::*;
use vstd::utf8::decode_utf8;
use vstd::utf8::valid_utf8;
use crate::address::Address;
use crate::address::Host;
use crate::address::HostModel;
use crate::text::format_ipv4;
use crate::text::format_ipv6;
use crate::text::ipv4_text;
use crate::text::ipv6_text;

verus! {

/// The text that `String::from_utf8_lossy` makes of a byte string.
pub uninterp spec fn lossy_text(bytes: Seq<u8>) -> Seq<char>;

/// `String::from_utf8_lossy`: the bytes read as UTF-8, each malformed
/// sequence replaced by U+FFFD. Bytes that are valid UTF-8 come out as the
/// text they encode.
#[verifier::external_body]
fn lossy(bytes: &[u8]) -> (text: String)
    ensures
        text@ == lossy_text(bytes@),
        valid_utf8(bytes@) ==> text@ == decode_utf8(bytes@),
{
    String::from_utf8_lossy(bytes).into_owned()
}

/// A connectable target: a host name or IP literal, and a port.
#[derive(Debug, PartialEq, Eq)]
pub struct Target {
    pub host: String,
    pub port: u16,
}

impl Clone for Target {
    fn clone(&self) -> (copy: Target)
        ensures
            copy@ == self@,
    {
        Target { host: self.host.clone(), port: self.port }
    }
}

impl View for Target {
    type V = (Seq<char>, u16);

    open spec fn view(&self) -> (Seq<char>, u16) {
        (self.host@, self.port)
    }
}

/// The host text of an address: dotted decimal for IPv4, colon-separated
/// hexadecimal for IPv6, and the name itself for a domain name.
pub open spec fn host_text(host: HostModel) -> Seq<char> {
    match host {
        HostModel::V4(octets) => ipv4_text(octets),
        HostModel::Domain(name) => lossy_text(name),
        HostModel::V6(octets) => ipv6_text(octets),
    }
}

impl Target {
    /// A target from its two parts.
    pub fn new(host: String, port: u16) -> (target: Target)
        ensures
            target@ == (host@, port),
    {
        Target { host, port }
    }
}

/// Turns a destination into a connectable target. IP addresses are written
/// out as text; a domain name is passed on as it came, for the network layer
/// to look up.
pub fn resolve(address: &Address) -> (target: Target)
    ensures
        target@ == (host_text(address@.host), address@.port),
        address@.host matches HostModel::Domain(name) ==> (valid_utf8(name) ==> target@.0
            == decode_utf8(name)),
{
    let host = match &address.host {
        Host::V4(octets) => format_ipv4(octets),
        Host::Domain(name) => lossy(name.as_slice()),
        Host::V6(octets) => format_ipv6(octets),
    };
    Target::new(host, address.port)
}

} // verus!
