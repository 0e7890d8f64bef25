//! The configuration that one invocation of the client runs under.

use vstd::prelude::*;

use crate::text::{decimal, push_decimal};

verus! {

/// Process-scoped configuration: made once at startup, read by every dispatch.
#[derive(Debug, Clone, PartialEq, Eq)]
pub struct ClientSession {
    /// The wallet that wallet calls address.
    pub wallet: String,
    /// The name of the selected network, as it is shown to the user.
    pub network: String,
    /// The URL of the remote endpoint.
    pub endpoint: String,
    /// Default dust threshold for bid outputs, in satoshi.
    pub dust_threshold: Option<u64>,
    /// Default for the flag that forces an invalid transaction through.
    pub force: bool,
    /// Default for the flag that skips the remote check of the transaction.
    pub skip_validation: bool,
}

/// The mathematical content of a [`ClientSession`].
pub struct SessionModel {
    pub wallet: Seq<char>,
    pub network: Seq<char>,
    pub endpoint: Seq<char>,
    pub dust_threshold: Option<u64>,
    pub force: bool,
    pub skip_validation: bool,
}

impl View for ClientSession {
    type V = SessionModel;

    open spec fn view(&self) -> SessionModel {
        SessionModel {
            wallet: self.wallet@,
            network: self.network@,
            endpoint: self.endpoint@,
            dust_threshold: self.dust_threshold,
            force: self.force,
            skip_validation: self.skip_validation,
        }
    }
}

/// The endpoint on the local host at a port.
pub open spec fn local_endpoint(port: u16) -> Seq<char> {
    "http://127.0.0.1:"@ + decimal(port as nat)
}

/// The endpoint that a session talks to: the override where one is given, else
/// the local endpoint at the network's default port.
pub open spec fn resolved_endpoint(endpoint: Option<Seq<char>>, default_port: u16) -> Seq<char> {
    match endpoint {
        Some(url) => url,
        None => local_endpoint(default_port),
    }
}

/// The default endpoint for a network, from the network's default port.
pub fn default_spaced_rpc_url(port: u16) -> (r: String)
    ensures
        r@ == local_endpoint(port),
{
    let mut url = String::from_str("http://127.0.0.1:");
    push_decimal(&mut url, port as u64);
    url
}

impl ClientSession {
    /// Builds the session from the invocation's settings. Without an endpoint
    /// override the session talks to the local endpoint at `default_port`.
    pub fn configure(
        wallet: String,
        network: String,
        endpoint: Option<String>,
        default_port: u16,
        dust_threshold: Option<u64>,
        force: bool,
        skip_validation: bool,
    ) -> (r: ClientSession)
        ensures
            r@ == (SessionModel {
                wallet: wallet@,
                network: network@,
                endpoint: resolved_endpoint(endpoint.deep_view(), default_port),
                dust_threshold,
                force,
                skip_validation,
            }),
    {
        let endpoint = match endpoint {
            Some(url) => url,
            None => default_spaced_rpc_url(default_port),
        };
        ClientSession { wallet, network, endpoint, dust_threshold, force, skip_validation }
    }
}

} // verus!
