//! A SOCKS version 5 proxy core: the wire codec, the resolution of
//! destinations, the session state machine, and the decisions of the TCP and
//! UDP relays. Nothing here touches a socket; the caller performs the I/O
//! that the session asks for and reports back what happened.

use vstd::prelude::*;
use vstd::std_specs::convert::IntoSpec;

pub mod address;
pub mod associate;
pub mod datagram;
pub mod error;
pub mod greeting;
pub mod relay;
pub mod reply;
pub mod request;
pub mod resolver;
pub mod session;
pub mod text;

verus! {

/// `String::from` on a string slice copies the text into a new string.
pub assume_specification<'a>[ <String as From<&'a str>>::from ](text: &str) -> (owned: String)
    ensures
        owned@ == text@,
;

/// `From::from` of a type on itself hands the value back as it is.
pub assume_specification<T>[ <T as From<T>>::from ](value: T) -> (same: T)
    ensures
        same == value,
;

/// Where the listener binds: a host name or address literal, and a port.
#[derive(Debug)]
pub struct Config {
    local_addr: String,
    local_port: u16,
}

impl Config {
    /// The host that the listener binds to, as the string that holds it.
    pub closed spec fn host_string(&self) -> String {
        self.local_addr
    }

    /// The host that the listener binds to.
    pub open spec fn host(&self) -> Seq<char> {
        self.host_string()@
    }

    /// The port that the listener binds to.
    pub closed spec fn port(&self) -> u16 {
        self.local_port
    }

    /// A configuration from a host and a port. The host is what the
    /// argument converts into: for a string or a string slice, its text.
    pub fn new<S: Into<String>>(local_addr: S, local_port: u16) -> (config: Config)
        ensures
            config.port() == local_port,
            call_ensures(<S as Into<String>>::into, (local_addr,), config.host_string()),
            S::obeys_into_spec() ==> config.host() == local_addr.into_spec()@,
    {
        Config { local_addr: local_addr.into(), local_port }
    }

    /// The host that the listener binds to.
    pub fn local_addr(&self) -> (host: &str)
        ensures
            host@ == self.host(),
    {
        self.local_addr.as_str()
    }

    /// The port that the listener binds to.
    pub fn local_port(&self) -> (port: u16)
        ensures
            port == self.port(),
    {
        self.local_port
    }
}

/// A proxy server: a configuration waiting to be served.
pub struct Server {
    config: Config,
}

impl Server {
    /// The configuration of the server.
    pub closed spec fn configuration(&self) -> Config {
        self.config
    }

    /// A server for a configuration.
    pub fn new(config: Config) -> (server: Server)
        ensures
            server.configuration() == config,
    {
        Server { config }
    }

    /// The configuration of the server.
    pub fn config(&self) -> (config: &Config)
        ensures
            *config == self.configuration(),
    {
        &self.config
    }
}

} // verus!
