use vstd::prelude::*;

use crate::error::ServerError;

verus! {

/// State of one connection accepted by the HTTP/2 listener.
#[derive(Clone, Copy, PartialEq, Eq, Structural, Debug)]
pub enum ConnState {
    /// The raw TCP connection is accepted, with no TLS work done yet.
    Accepted,
    /// The TLS handshake is in progress.
    TlsHandshaking,
    /// The handshake succeeded; the encrypted channel is ready.
    Established,
    /// The handshake failed (terminal).
    HandshakeFailed,
    /// The HTTP/2 session is being served over the channel.
    Serving,
    /// The session ended cleanly (terminal).
    Closed,
    /// The session ended with a protocol error (terminal).
    ServeError,
}

/// One HTTP/2 connection task as an explicit state machine.
///
/// The driver owns exactly one accepted socket, performs the TLS handshake,
/// and on success serves one HTTP/2 session. Every terminal state merely
/// ends the task: the error a terminal state carries is never fatal, so a
/// failed connection cannot take the listener down.
pub struct Http2Conn {
    pub state: ConnState,
}

impl Http2Conn {
    /// Terminal states end the task.
    pub open spec fn spec_is_terminal(self) -> bool {
        match self.state {
            ConnState::HandshakeFailed => true,
            ConnState::Closed => true,
            ConnState::ServeError => true,
            _ => false,
        }
    }

    /// The error a state stands for: only the two failure states carry one.
    pub open spec fn spec_error(self) -> Option<ServerError> {
        match self.state {
            ConnState::HandshakeFailed => Some(ServerError::HandshakeFailure),
            ConnState::ServeError => Some(ServerError::ProtocolError),
            _ => None,
        }
    }

    /// A fresh machine for one accepted connection.
    pub fn new() -> (r: Self)
        ensures
            r.state is Accepted,
    {
        Http2Conn { state: ConnState::Accepted }
    }

    /// The task starts the TLS handshake.
    pub fn start_handshake(&mut self)
        requires
            old(self).state is Accepted,
        ensures
            final(self).state is TlsHandshaking,
    {
        self.state = ConnState::TlsHandshaking;
    }

    /// Outcome of the TLS handshake.
    pub fn on_handshake(&mut self, ok: bool)
        requires
            old(self).state is TlsHandshaking,
        ensures
            ok ==> final(self).state is Established,
            !ok ==> final(self).state is HandshakeFailed && final(self).spec_is_terminal(),
    {
        if ok {
            self.state = ConnState::Established;
        } else {
            self.state = ConnState::HandshakeFailed;
        }
    }

    /// The task starts serving HTTP/2 over the established channel. The
    /// listener always proceeds with the HTTP/2 stack after a successful
    /// handshake, whatever protocol ALPN settled on.
    pub fn start_serving(&mut self)
        requires
            old(self).state is Established,
        ensures
            final(self).state is Serving,
    {
        self.state = ConnState::Serving;
    }

    /// Outcome of the HTTP/2 session.
    pub fn on_served(&mut self, ok: bool)
        requires
            old(self).state is Serving,
        ensures
            final(self).spec_is_terminal(),
            ok ==> final(self).state is Closed,
            !ok ==> final(self).state is ServeError,
    {
        if ok {
            self.state = ConnState::Closed;
        } else {
            self.state = ConnState::ServeError;
        }
    }

    pub fn is_terminal(&self) -> (r: bool)
        ensures
            r == self.spec_is_terminal(),
    {
        match self.state {
            ConnState::HandshakeFailed => true,
            ConnState::Closed => true,
            ConnState::ServeError => true,
            _ => false,
        }
    }

    /// The error this connection ends with, if any.
    pub fn error(&self) -> (r: Option<ServerError>)
        ensures
            r == self.spec_error(),
    {
        match self.state {
            ConnState::HandshakeFailed => Some(ServerError::HandshakeFailure),
            ConnState::ServeError => Some(ServerError::ProtocolError),
            _ => None,
        }
    }
}

/// Whatever state a connection reaches, the error it can end with is never
/// fatal: one connection's failure is isolated from the listener and from
/// every other connection.
pub proof fn lemma_connection_errors_isolated(c: Http2Conn)
    ensures
        match c.spec_error() {
            Some(e) => !e.spec_is_fatal(),
            None => true,
        },
{
}

/// The ALPN identifier of HTTP/2, the byte string `h2`.
pub open spec fn alpn_h2() -> Seq<u8> {
    seq![104u8, 50u8]
}

/// The ALPN identifier of HTTP/1.1, the byte string `http/1.1`.
pub open spec fn alpn_http11() -> Seq<u8> {
    seq![104u8, 116u8, 116u8, 112u8, 47u8, 49u8, 46u8, 49u8]
}

/// The ALPN offer of the TLS acceptor: `h2` preferred over `http/1.1`.
pub fn alpn_protocols() -> (r: Vec<Vec<u8>>)
    ensures
        r@.len() == 2,
        r@[0]@ == alpn_h2(),
        r@[1]@ == alpn_http11(),
{
    let h2: Vec<u8> = vec![104u8, 50u8];
    let http11: Vec<u8> = vec![104u8, 116u8, 116u8, 112u8, 47u8, 49u8, 46u8, 49u8];
    let mut r: Vec<Vec<u8>> = Vec::new();
    r.push(h2);
    r.push(http11);
    proof {
        assert(r@[0]@ =~= alpn_h2());
        assert(r@[1]@ =~= alpn_http11());
    }
    r
}

#[verifier::external_type_specification]
#[verifier::external_body]
pub struct ExCertificateDer<'a>(rustls_pki_types::CertificateDer<'a>);

#[verifier::external_type_specification]
#[verifier::external_body]
pub struct ExPrivateKeyDer<'a>(rustls_pki_types::PrivateKeyDer<'a>);

#[verifier::external_type_specification]
#[verifier::external_body]
pub struct ExRustlsServerConfig(rustls::ServerConfig);

#[verifier::external_type_specification]
#[verifier::external_body]
pub struct ExRustlsError(rustls::Error);

/// Relies on rustls's `ServerConfig` builder: no client-certificate
/// authentication, a single fixed certificate chain and private key, and the
/// given ALPN protocol list. `with_single_cert` returns an error when the
/// key or chain is rejected.
#[verifier::external_body]
fn build_tls_config(
    certs: Vec<rustls_pki_types::CertificateDer<'static>>,
    key: rustls_pki_types::PrivateKeyDer<'static>,
    alpn: Vec<Vec<u8>>,
) -> Result<rustls::ServerConfig, rustls::Error> {
    match rustls::ServerConfig::builder().with_no_client_auth().with_single_cert(certs, key) {
        Ok(mut config) => {
            config.alpn_protocols = alpn;
            Ok(config)
        }
        Err(e) => Err(e),
    }
}

/// Build the server-wide TLS configuration: the fixed certificate chain and
/// key, no client authentication, and the ALPN offer of `alpn_protocols`.
/// A rejected certificate/key pair is the fatal startup error
/// `TlsConfigFailure`.
pub fn tls_server_config(
    certs: Vec<rustls_pki_types::CertificateDer<'static>>,
    key: rustls_pki_types::PrivateKeyDer<'static>,
) -> (r: Result<rustls::ServerConfig, ServerError>)
    ensures
        r is Err ==> r->Err_0 == ServerError::TlsConfigFailure
            && r->Err_0.spec_is_fatal(),
{
    let alpn = alpn_protocols();
    match build_tls_config(certs, key, alpn) {
        Ok(config) => Ok(config),
        Err(_) => Err(ServerError::TlsConfigFailure),
    }
}

} // verus!
