//! A cloneable bidirectional byte-stream abstraction over two transport
//! kinds: a plain socket and a TLS-encrypted session, presented through one
//! uniform read/write surface.
//!
//! The connection itself is modelled in-process: a [`conn::DuplexState`]
//! holds the two byte queues of an established connection, and every handle
//! derived from one endpoint shares that state behind a verified lock, so
//! that each I/O call is serialized against all other handles of the same
//! connection.

pub mod conn;
pub mod stream;
