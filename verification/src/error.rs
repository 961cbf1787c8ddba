use vstd::prelude::*;

verus! {

/// Errors of the gateway front-end.
///
/// The taxonomy keeps the fatal/recoverable split explicit: fatal errors end
/// the whole server, per-connection errors are isolated to one connection
/// task and never escalate to the accept loop.
#[derive(Clone, Copy, PartialEq, Eq, Structural, Debug)]
pub enum ServerError {
    /// The listening socket could not be bound (fatal).
    BindFailure,
    /// The accept call itself failed, e.g. socket exhaustion (fatal: the
    /// listening socket is assumed reliable).
    AcceptFailure,
    /// The certificate/key pair was rejected while building the TLS
    /// configuration at startup (fatal).
    TlsConfigFailure,
    /// A TLS handshake with one client failed (per-connection).
    HandshakeFailure,
    /// Malformed HTTP framing or another session-level error on one
    /// connection (per-connection).
    ProtocolError,
    /// A request body could not be parsed in the configured mode
    /// (per-request).
    DispatchError,
    /// The readiness channel's consumer was gone when the signal was sent
    /// (fatal: an integration error by the caller).
    SignalDeliveryFailure,
}

impl ServerError {
    /// A fatal error terminates the server; every other error is confined to
    /// the connection or request it arose on.
    pub open spec fn spec_is_fatal(self) -> bool {
        match self {
            ServerError::BindFailure => true,
            ServerError::AcceptFailure => true,
            ServerError::TlsConfigFailure => true,
            ServerError::SignalDeliveryFailure => true,
            ServerError::HandshakeFailure => false,
            ServerError::ProtocolError => false,
            ServerError::DispatchError => false,
        }
    }

    pub fn is_fatal(&self) -> (r: bool)
        ensures
            r == self.spec_is_fatal(),
    {
        match self {
            ServerError::BindFailure => true,
            ServerError::AcceptFailure => true,
            ServerError::TlsConfigFailure => true,
            ServerError::SignalDeliveryFailure => true,
            ServerError::HandshakeFailure => false,
            ServerError::ProtocolError => false,
            ServerError::DispatchError => false,
        }
    }

    /// A short description, in place of a `Display` impl.
    pub fn message(&self) -> (r: String)
        ensures
            *self is BindFailure ==> r@ == "failed to bind the listening socket"@,
            *self is AcceptFailure ==> r@ == "failed to accept a connection"@,
            *self is TlsConfigFailure ==> r@ == "invalid certificate or private key"@,
            *self is HandshakeFailure ==> r@ == "TLS handshake failed"@,
            *self is ProtocolError ==> r@ == "error serving connection"@,
            *self is DispatchError ==> r@ == "failed to parse the request body"@,
            *self is SignalDeliveryFailure ==> r@ == "failed to send readiness message"@,
    {
        match self {
            ServerError::BindFailure => "failed to bind the listening socket".to_owned(),
            ServerError::AcceptFailure => "failed to accept a connection".to_owned(),
            ServerError::TlsConfigFailure => "invalid certificate or private key".to_owned(),
            ServerError::HandshakeFailure => "TLS handshake failed".to_owned(),
            ServerError::ProtocolError => "error serving connection".to_owned(),
            ServerError::DispatchError => "failed to parse the request body".to_owned(),
            ServerError::SignalDeliveryFailure => "failed to send readiness message".to_owned(),
        }
    }
}

} // verus!
