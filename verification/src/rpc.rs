//! Client-side RPC configuration: the protocol and address of a daemon, and
//! the endpoint string they compose to. Opening the connection itself is the
//! transport's business, outside this library.

use vstd::prelude::*;

verus! {

/// The transport protocol of the daemon endpoint.
#[derive(Debug)]
pub enum RpcProtocolType {
    Http,
    Https,
}

impl RpcProtocolType {
    /// The scheme this protocol renders to.
    pub open spec fn spec_label(&self) -> Seq<char> {
        match self {
            RpcProtocolType::Http => "http"@,
            RpcProtocolType::Https => "https"@,
        }
    }

    /// Renders the protocol as its URL scheme.
    pub fn label(&self) -> (r: String)
        ensures
            r@ == self.spec_label(),
    {
        match self {
            RpcProtocolType::Http => String::from_str("http"),
            RpcProtocolType::Https => String::from_str("https"),
        }
    }
}

/// The endpoint string for a protocol and an address:
/// `<scheme>://<address>`.
pub open spec fn endpoint_of(protocol: RpcProtocolType, address: Seq<char>) -> Seq<char> {
    protocol.spec_label() + "://"@ + address
}

/// Where a client reaches the daemon.
#[derive(Debug)]
pub struct RpcClientConfig {
    pub protocol: RpcProtocolType,
    pub address: String,
}

impl RpcClientConfig {
    /// The endpoint this configuration points at.
    pub fn endpoint(&self) -> (r: String)
        ensures
            r@ == endpoint_of(self.protocol, self.address@),
    {
        self.protocol.label().concat("://").concat(self.address.as_str())
    }
}

impl Default for RpcClientConfig {
    fn default() -> (r: Self)
        ensures
            r.protocol is Http,
            r.address@ == "127.0.0.1:10000"@,
    {
        RpcClientConfig {
            protocol: RpcProtocolType::Http,
            address: String::from_str("127.0.0.1:10000"),
        }
    }
}

/// Collects the protocol and address for a daemon connection; the endpoint
/// it composes is what the transport dials.
pub struct DaemonClientBuilder<'a> {
    pub protocol: Option<RpcProtocolType>,
    pub address: Option<&'a str>,
}

impl<'a> Default for DaemonClientBuilder<'a> {
    fn default() -> (r: Self)
        ensures
            r.protocol is None,
            r.address is None,
    {
        DaemonClientBuilder { protocol: None, address: None }
    }
}

impl<'a> DaemonClientBuilder<'a> {
    pub fn protocol(self, protocol: RpcProtocolType) -> (r: Self)
        ensures
            r.protocol == Some(protocol),
            r.address == self.address,
    {
        DaemonClientBuilder { protocol: Some(protocol), ..self }
    }

    pub fn address(self, address: &'a str) -> (r: Self)
        ensures
            r.address == Some(address),
            r.protocol == self.protocol,
    {
        DaemonClientBuilder { address: Some(address), ..self }
    }

    /// The endpoint to dial for the collected protocol and address.
    pub fn endpoint(self) -> (r: String)
        requires
            self.protocol is Some,
            self.address is Some,
        ensures
            r@ == endpoint_of(self.protocol->Some_0, self.address->Some_0@),
    {
        let protocol = self.protocol.unwrap();
        let address = self.address.unwrap();
        protocol.label().concat("://").concat(address)
    }
}

} // verus!
