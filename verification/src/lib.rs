//! Network front-end of a GraphQL gateway.
//!
//! The library holds the verified decision logic of the front-end: the
//! accept-loop state machine with its readiness signal, the per-connection
//! TLS/HTTP2 state machine, the request dispatcher, the configuration-source
//! rules, and the schema SDL clean-up. The asynchronous I/O shell that drives
//! these decisions lives outside the library.

pub mod dispatch;
pub mod error;
pub mod http2;
pub mod print_schema;
pub mod server;
pub mod showcase;
