//! Communication abstractions for host-to-host links.
//!
//! A terminal stands for a single host with one key identity; ships are
//! individual links and a lake is a group of ships that all receive what is
//! sent to it.  The concrete socket work behind a connection lives outside
//! the library; the `Connectable` trait is the seam its implementations
//! plug into.

use vstd::prelude::*;

verus! {

/// A single host: one key identity, one connection.  Terminals act as the
/// vertices of the communication graph.
pub struct Terminal {
    pub human_name: String,
    pub human_name_utf8sig: Vec<u8>,
    pub pub_key: Vec<u8>,
    pub connection: Box<dyn Connectable>,
}

/// One link between two hosts.  A ship may ride a multicast group, but its
/// identity information refers to a single host, so that peers can issue
/// parallel compute requests until their needs are met.
pub struct Ship {}

/// A group of ships; a message sent to the lake reaches every ship in it.
pub struct Lake {
    pub ships: Vec<Ship>,
}

/// The operations a transport offers a terminal.  Implementations live with
/// the sockets, outside the library; an error is reported as text.
pub trait Connectable {
    fn connect(&mut self) -> Result<(), String>;

    fn is_connected(&mut self) -> Result<bool, String>;

    fn tx_encoded(&mut self, message: &[u8]) -> Result<(), String>;

    fn rx_encoded(&mut self) -> Result<(), String>;

    fn disconnect(&mut self) -> Result<(), String>;
}

} // verus!
