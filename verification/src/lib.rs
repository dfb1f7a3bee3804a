//! A minimal session engine for an LDAP-style directory server.
//!
//! The crate models the per-connection protocol session: decoded client
//! operations come in, the session keeps the currently authenticated
//! identity, asks a pluggable backend to verify credentials, and produces
//! the protocol responses to send back, or a signal to close the
//! connection. Byte-level framing of the wire protocol and the transport
//! itself are outside collaborators and stay outside this crate.

pub mod backend;
pub mod connection;
pub mod messages;
pub mod session;
