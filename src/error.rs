//! Errors of the presence client.
use vstd::prelude::*;

verus! {

/// A configuration field that a lookup needs.
#[derive(Clone, Copy, Debug, PartialEq, Eq, Structural)]
pub enum Field {
    /// `affinity` in the routing token's payload.
    Affinity,
    /// `chat.affinities[affinity]` in the client configuration.
    ChatHost,
    /// `chat.affinity_domains[affinity]` in the client configuration.
    ChatDomain,
}

/// Why an operation of the presence client failed.
#[derive(Debug)]
pub enum XmppError {
    /// The operation needs an established session.
    NotConnected,
    /// No self-presence template has been captured to broadcast from.
    NoTemplate,
    /// The routing token has no payload segment.
    BadToken,
    /// A base64 field did not decode.
    BadEncoding,
    /// A JSON document did not parse.
    BadJson,
    /// A field that the lookup needs is absent.
    MissingField(Field),
    /// The server refused the credentials; its response.
    AuthFailed(String),
    /// The bind response carried no bound identity.
    BindFailed,
    /// The peer closed the connection.
    ConnectionClosed,
    /// The transport failed; its description.
    Io(String),
}

} // verus!
