//! Typed I/O port addresses.
//!
//! The `in` and `out` instructions themselves are privileged and are issued
//! by the embedding layer; this module gives the fixed hardware addresses a
//! type, and [`PortWrite`] describes one write for the layer to perform.

use vstd::prelude::*;

verus! {

/// An I/O port, identified by its fixed hardware address.
#[derive(Clone, Copy, PartialEq, Eq, Structural, Debug)]
pub struct Port {
    address: u16,
}

impl Port {
    /// The port's address.
    pub closed spec fn spec_address(self) -> u16 {
        self.address
    }

    /// A port at the given address.
    pub fn new(address: u16) -> (r: Port)
        ensures
            r.spec_address() == address,
    {
        Port { address }
    }

    /// The port's address, for the embedding layer to issue the instruction
    /// at.
    pub fn address(&self) -> (r: u16)
        ensures
            r == self.spec_address(),
    {
        self.address
    }
}

/// One byte write to one port, for the embedding layer to perform.
#[derive(Clone, Copy, PartialEq, Eq, Structural, Debug)]
pub struct PortWrite {
    /// The port address to write to.
    pub port: u16,
    /// The byte to write.
    pub value: u8,
}

} // verus!
