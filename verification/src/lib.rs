//! A secure, multiplexed, protocol-negotiating transport for peer-to-peer
//! networking.
//!
//! Given a raw byte-stream transport, the library composes a per-connection
//! upgrade chain: authenticated encryption, peer-identity verification,
//! multiplexer negotiation, and per-substream protocol negotiation, each
//! bounded by a timeout. The cryptographic handshake, the multiplexing
//! algorithm and the negotiation wire format are pluggable collaborators;
//! this crate's responsibility is correct composition, sequencing, timeout
//! enforcement, and error unification across those layers, and those
//! decisions are what it verifies. An asynchronous driver performs the socket
//! I/O, feeds each decision function the event it observed, and carries out
//! the action the function returns.

pub mod control;
pub mod errors;
pub mod identity;
pub mod inbound;
pub mod node;
pub mod protocol;
pub mod registry;
pub mod upgrade;

pub use control::{Control, OutboundEvent};
pub use errors::{ConnectError, Error, MultiplexerError, NegotiationError};
pub use identity::PeerId;
pub use inbound::{InboundEvent, InboundSubstreams, RemoteNegotiation};
pub use node::{Connection, ListenerEvent, Node};
pub use protocol::Substream;
pub use registry::ConnectionRegistry;
pub use upgrade::{Direction, MultiplexerMode, UpgradeEvent};
