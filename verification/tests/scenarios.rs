use std::sync::atomic::{AtomicUsize, Ordering};
use std::sync::Arc;

use http_body_util::BodyExt;
use hyper_util::rt::{TokioExecutor, TokioIo};
use tailcall::dispatch;
use tailcall::error::ServerError;
use tailcall::server::AcceptLoop;
use tokio::io::AsyncWriteExt;

fn runtime() -> tokio::runtime::Runtime {
    tokio::runtime::Builder::new_multi_thread()
        .worker_threads(2)
        .enable_all()
        .build()
        .unwrap()
}

/// The request handler every scenario server uses: the library's dispatcher
/// around an execution context that echoes the operation's query string
/// back as the data, counting its invocations.
async fn handle(
    req: hyper::Request<hyper::body::Incoming>,
    enable_batch: bool,
    calls: Arc<AtomicUsize>,
) -> Result<hyper::Response<http_body_util::Full<bytes::Bytes>>, std::convert::Infallible> {
    let body = req.into_body().collect().await.unwrap().to_bytes();
    let reply = match dispatch::parse_request(enable_batch, &body) {
        Ok(dispatch::GatewayRequest::Single(op)) => {
            calls.fetch_add(1, Ordering::SeqCst);
            let resp = async_graphql::Response::new(async_graphql::Value::String(op.query));
            dispatch::render_response(&resp).unwrap()
        }
        Ok(dispatch::GatewayRequest::Batch(ops)) => {
            let mut rs = Vec::new();
            for op in ops {
                calls.fetch_add(1, Ordering::SeqCst);
                rs.push(async_graphql::Response::new(async_graphql::Value::String(op.query)));
            }
            dispatch::render_batch_response(&rs).unwrap()
        }
        Err(_) => dispatch::parse_error_reply(),
    };
    let resp = hyper::Response::builder()
        .status(reply.status)
        .header("content-type", reply.content_type.as_str())
        .body(http_body_util::Full::new(bytes::Bytes::from(reply.body.into_bytes())))
        .unwrap();
    Ok(resp)
}

/// A connection source standing in for a TCP listener: each sent duplex
/// stream is one accepted connection. (The sandbox permits binding a socket
/// but not connecting to it, so the exchanges ride in-memory streams.)
type ConnSender = tokio::sync::mpsc::UnboundedSender<tokio::io::DuplexStream>;

/// The HTTP/1.1 accept loop over the connection source: each connection is
/// served on its own independent task.
fn spawn_http1_server(enable_batch: bool, calls: Arc<AtomicUsize>) -> ConnSender {
    let (tx, mut rx) = tokio::sync::mpsc::unbounded_channel::<tokio::io::DuplexStream>();
    tokio::spawn(async move {
        while let Some(stream) = rx.recv().await {
            let calls = calls.clone();
            tokio::spawn(async move {
                let service = hyper::service::service_fn(move |req| {
                    handle(req, enable_batch, calls.clone())
                });
                let io = TokioIo::new(stream);
                let _ = hyper::server::conn::http1::Builder::new()
                    .serve_connection(io, service)
                    .await;
            });
        }
    });
    tx
}

fn connect(tx: &ConnSender) -> tokio::io::DuplexStream {
    let (client, server) = tokio::io::duplex(64 * 1024);
    tx.send(server).unwrap();
    client
}

async fn post_graphql(
    tx: &ConnSender,
    body: &'static [u8],
) -> (hyper::StatusCode, serde_json::Value) {
    let io = TokioIo::new(connect(tx));
    let (mut sender, conn) = hyper::client::conn::http1::handshake(io).await.unwrap();
    tokio::spawn(conn);
    let req = hyper::Request::builder()
        .method("POST")
        .uri("/graphql")
        .header("host", "localhost")
        .body(http_body_util::Full::new(bytes::Bytes::from_static(body)))
        .unwrap();
    let resp = sender.send_request(req).await.unwrap();
    let status = resp.status();
    let bytes = resp.into_body().collect().await.unwrap().to_bytes();
    (status, serde_json::from_slice(&bytes).unwrap())
}

#[test]
fn readiness_fires_after_bind_and_before_accept() {
    let rt = runtime();
    rt.block_on(async {
        let (up_tx, up_rx) = tokio::sync::oneshot::channel::<()>();
        let mut machine = AcceptLoop::new(true, false);
        let listener = tokio::net::TcpListener::bind("127.0.0.1:0").await.unwrap();
        machine.on_bound(true);
        assert!(!machine.signal_fired);
        let delivered = up_tx.send(()).is_ok();
        machine.on_signal_sent(delivered);
        assert!(machine.signal_fired);
        // The consumer observes readiness while the listener is accepting.
        up_rx.await.unwrap();
        assert!(machine.failure.is_none());
        assert!(listener.local_addr().unwrap().port() != 0);
    });
}

#[test]
fn bind_failure_returns_error_and_no_signal() {
    let rt = runtime();
    rt.block_on(async {
        let first = tokio::net::TcpListener::bind("127.0.0.1:0").await.unwrap();
        let addr = first.local_addr().unwrap().to_string();
        // The address is already in use: the second bind must fail.
        let second = tokio::net::TcpListener::bind(addr.as_str()).await;
        assert!(second.is_err());
        let (up_tx, mut up_rx) = tokio::sync::oneshot::channel::<()>();
        let mut machine = AcceptLoop::new(true, false);
        machine.on_bound(false);
        assert_eq!(machine.failure, Some(ServerError::BindFailure));
        assert!(machine.failure.unwrap().is_fatal());
        assert!(!machine.signal_fired);
        // The signal is never sent on the failure path.
        drop(up_tx);
        assert!(up_rx.try_recv().is_err());
    });
}

#[test]
fn lost_readiness_consumer_fails_startup() {
    let rt = runtime();
    rt.block_on(async {
        let (up_tx, up_rx) = tokio::sync::oneshot::channel::<()>();
        drop(up_rx);
        let mut machine = AcceptLoop::new(true, false);
        machine.on_bound(true);
        let delivered = up_tx.send(()).is_ok();
        assert!(!delivered);
        machine.on_signal_sent(delivered);
        assert_eq!(machine.failure, Some(ServerError::SignalDeliveryFailure));
        assert!(machine.failure.unwrap().is_fatal());
        assert!(!machine.signal_fired);
    });
}

#[test]
fn rejected_key_is_tls_config_failure() {
    let cert = rustls_pki_types::CertificateDer::from(vec![48u8, 3, 2, 1, 0]);
    let bad_key = rustls_pki_types::PrivateKeyDer::Pkcs8(
        rustls_pki_types::PrivatePkcs8KeyDer::from(vec![0u8, 1, 2, 3]),
    );
    match tailcall::http2::tls_server_config(vec![cert], bad_key) {
        Err(e) => {
            assert_eq!(e, ServerError::TlsConfigFailure);
            assert!(e.is_fatal());
        }
        Ok(_) => panic!("a garbage key must be rejected"),
    }
}

#[test]
fn http1_single_operation_roundtrip() {
    let rt = runtime();
    rt.block_on(async {
        let calls = Arc::new(AtomicUsize::new(0));
        let tx = spawn_http1_server(false, calls.clone());
        let (status, v) = post_graphql(&tx, br#"{"query":"{ ping }"}"#).await;
        assert_eq!(status, hyper::StatusCode::OK);
        assert_eq!(v["data"], serde_json::Value::String("{ ping }".to_string()));
        assert_eq!(calls.load(Ordering::SeqCst), 1);
    });
}

#[test]
fn http1_array_body_in_single_mode_is_request_error() {
    let rt = runtime();
    rt.block_on(async {
        let calls = Arc::new(AtomicUsize::new(0));
        let tx = spawn_http1_server(false, calls.clone());
        let (status, v) = post_graphql(&tx, br#"[{"query":"{ a }"}]"#).await;
        assert_eq!(status, hyper::StatusCode::BAD_REQUEST);
        assert!(v["errors"].is_array());
        assert_eq!(calls.load(Ordering::SeqCst), 0);
    });
}

#[test]
fn http1_single_body_in_batch_mode_is_request_error() {
    let rt = runtime();
    rt.block_on(async {
        let calls = Arc::new(AtomicUsize::new(0));
        let tx = spawn_http1_server(true, calls.clone());
        let (status, v) = post_graphql(&tx, br#"{"query":"{ a }"}"#).await;
        assert_eq!(status, hyper::StatusCode::BAD_REQUEST);
        assert!(v["errors"].is_array());
        assert_eq!(calls.load(Ordering::SeqCst), 0);
    });
}

#[test]
fn http1_concurrent_connections_no_cross_talk() {
    let rt = runtime();
    rt.block_on(async {
        let calls = Arc::new(AtomicUsize::new(0));
        let tx = spawn_http1_server(false, calls.clone());
        let tx2 = tx.clone();
        let a = tokio::spawn(async move { post_graphql(&tx, br#"{"query":"{ alpha }"}"#).await });
        let b = tokio::spawn(async move { post_graphql(&tx2, br#"{"query":"{ beta }"}"#).await });
        let (sa, va) = a.await.unwrap();
        let (sb, vb) = b.await.unwrap();
        assert_eq!(sa, hyper::StatusCode::OK);
        assert_eq!(sb, hyper::StatusCode::OK);
        assert_eq!(va["data"], serde_json::Value::String("{ alpha }".to_string()));
        assert_eq!(vb["data"], serde_json::Value::String("{ beta }".to_string()));
        assert_eq!(calls.load(Ordering::SeqCst), 2);
    });
}

#[derive(Debug)]
struct AcceptAnyCert(rustls::crypto::CryptoProvider);

impl rustls::client::danger::ServerCertVerifier for AcceptAnyCert {
    fn verify_server_cert(
        &self,
        _end_entity: &rustls_pki_types::CertificateDer<'_>,
        _intermediates: &[rustls_pki_types::CertificateDer<'_>],
        _server_name: &rustls_pki_types::ServerName<'_>,
        _ocsp_response: &[u8],
        _now: rustls_pki_types::UnixTime,
    ) -> Result<rustls::client::danger::ServerCertVerified, rustls::Error> {
        Ok(rustls::client::danger::ServerCertVerified::assertion())
    }

    fn verify_tls12_signature(
        &self,
        _message: &[u8],
        _cert: &rustls_pki_types::CertificateDer<'_>,
        _dss: &rustls::DigitallySignedStruct,
    ) -> Result<rustls::client::danger::HandshakeSignatureValid, rustls::Error> {
        Ok(rustls::client::danger::HandshakeSignatureValid::assertion())
    }

    fn verify_tls13_signature(
        &self,
        _message: &[u8],
        _cert: &rustls_pki_types::CertificateDer<'_>,
        _dss: &rustls::DigitallySignedStruct,
    ) -> Result<rustls::client::danger::HandshakeSignatureValid, rustls::Error> {
        Ok(rustls::client::danger::HandshakeSignatureValid::assertion())
    }

    fn supported_verify_schemes(&self) -> Vec<rustls::SignatureScheme> {
        self.0.signature_verification_algorithms.supported_schemes()
    }
}

/// The TLS HTTP/2 accept loop over the connection source, with a
/// self-signed certificate and the library's TLS configuration. A failed
/// handshake only ends that connection's task.
fn spawn_http2_server(calls: Arc<AtomicUsize>) -> ConnSender {
    let ck = rcgen::generate_simple_self_signed(vec!["localhost".to_string()]).unwrap();
    let cert = ck.cert.der().clone();
    let key = rustls_pki_types::PrivateKeyDer::Pkcs8(rustls_pki_types::PrivatePkcs8KeyDer::from(
        ck.signing_key.serialize_der(),
    ));
    let config = tailcall::http2::tls_server_config(vec![cert], key).unwrap();
    let acceptor = tokio_rustls::TlsAcceptor::from(Arc::new(config));
    let (tx, mut rx) = tokio::sync::mpsc::unbounded_channel::<tokio::io::DuplexStream>();
    tokio::spawn(async move {
        while let Some(stream) = rx.recv().await {
            let acceptor = acceptor.clone();
            let calls = calls.clone();
            tokio::spawn(async move {
                let tls_stream = match acceptor.accept(stream).await {
                    Ok(s) => s,
                    Err(_) => return,
                };
                let service = hyper::service::service_fn(move |req| {
                    handle(req, false, calls.clone())
                });
                let io = TokioIo::new(tls_stream);
                let _ = hyper::server::conn::http2::Builder::new(TokioExecutor::new())
                    .serve_connection(io, service)
                    .await;
            });
        }
    });
    tx
}

async fn tls_h2_exchange(tx: &ConnSender) -> (hyper::StatusCode, serde_json::Value) {
    let provider = rustls::crypto::ring::default_provider();
    let mut client_config = rustls::ClientConfig::builder()
        .dangerous()
        .with_custom_certificate_verifier(Arc::new(AcceptAnyCert(provider)))
        .with_no_client_auth();
    client_config.alpn_protocols = vec![b"h2".to_vec(), b"http/1.1".to_vec()];
    let connector = tokio_rustls::TlsConnector::from(Arc::new(client_config));
    let name = rustls_pki_types::ServerName::try_from("localhost").unwrap();
    let tls = connector.connect(name, connect(tx)).await.unwrap();
    let (_, session) = tls.get_ref();
    assert_eq!(session.alpn_protocol(), Some(b"h2".as_ref()));
    let io = TokioIo::new(tls);
    let (mut sender, conn) = hyper::client::conn::http2::handshake(TokioExecutor::new(), io)
        .await
        .unwrap();
    tokio::spawn(conn);
    let req = hyper::Request::builder()
        .method("POST")
        .uri("/graphql")
        .body(http_body_util::Full::new(bytes::Bytes::from_static(
            br#"{"query":"{ secure }"}"#,
        )))
        .unwrap();
    let resp = sender.send_request(req).await.unwrap();
    let status = resp.status();
    let bytes = resp.into_body().collect().await.unwrap().to_bytes();
    (status, serde_json::from_slice(&bytes).unwrap())
}

#[test]
fn http2_tls_alpn_negotiates_h2_and_serves() {
    let rt = runtime();
    rt.block_on(async {
        let calls = Arc::new(AtomicUsize::new(0));
        let tx = spawn_http2_server(calls.clone());
        let (status, v) = tls_h2_exchange(&tx).await;
        assert_eq!(status, hyper::StatusCode::OK);
        assert_eq!(v["data"], serde_json::Value::String("{ secure }".to_string()));
        assert_eq!(calls.load(Ordering::SeqCst), 1);
    });
}

#[test]
fn malformed_tls_handshake_does_not_kill_the_listener() {
    let rt = runtime();
    rt.block_on(async {
        let calls = Arc::new(AtomicUsize::new(0));
        let tx = spawn_http2_server(calls.clone());
        // A client that talks garbage instead of a TLS hello.
        let mut raw = connect(&tx);
        raw.write_all(b"this is not a tls handshake at all").await.unwrap();
        let _ = raw.shutdown().await;
        drop(raw);
        // The listener must still serve a well-formed connection.
        let (status, v) = tls_h2_exchange(&tx).await;
        assert_eq!(status, hyper::StatusCode::OK);
        assert_eq!(v["data"], serde_json::Value::String("{ secure }".to_string()));
    });
}
