//! Routing decisions for a TLS passthrough proxy.
//!
//! The proxy looks at the cleartext start of an inbound connection, finds the
//! host name the client asks for in the Server Name Indication extension of
//! its ClientHello, and relays the untouched byte stream to that host. It
//! never decrypts anything.
//!
//! This library holds every decision the proxy makes, as functions from plain
//! values to plain values:
//!
//! - [`peek`] judges what a peek at the inbound stream handed back;
//! - [`record`] decodes the record header and bounds the handshake's size;
//! - [`handshake`] reads the ClientHello and picks the host name;
//! - [`resolve`] forms the lookup key and chooses among the addresses;
//! - [`relay`] says when a two-way relay is finished;
//! - [`connection`] strings these together into the life of one connection;
//! - [`failure`] names the ways in which a connection can fail.
//!
//! Sockets, name resolution and logging are the caller's business.

pub mod connection;
pub mod failure;
pub mod handshake;
pub mod peek;
pub mod record;
pub mod relay;
pub mod resolve;
