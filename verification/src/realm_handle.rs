//! Control messages addressed to a running realm.
//!
//! The handle that owns the realm's join future waits on unverified task
//! plumbing and therefore lives in the surrounding shell; the message type it
//! enqueues is shared from here.
use vstd::prelude::*;

verus! {

/// The only control message a realm accepts: a best-effort request to leave
/// its event loop and shut down.
pub enum RealmMessage {
    Stop,
}

} // verus!
