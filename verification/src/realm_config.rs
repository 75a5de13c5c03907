//! Immutable description of one realm: its name and the address and port
//! its acceptor binds.
use vstd::prelude::*;

verus! {

/// Created once at startup and never mutated afterwards.
pub struct RealmConfig {
    pub name: String,
    pub address: String,
    pub port: u16,
}

impl RealmConfig {
    /// Packs the three fields, unchanged, into a descriptor.
    pub fn new(name: String, address: String, port: u16) -> (r: Self)
        ensures
            r.name == name,
            r.address == address,
            r.port == port,
    {
        RealmConfig { name, address, port }
    }
}

} // verus!
