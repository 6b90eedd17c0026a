//! Finding a Grbl-class CNC controller on the local network and keeping one
//! command session with it: announcement decoding, probe classification,
//! the discovery order, and the session state machine. Sockets stay with the
//! caller, which performs the exchanges this crate decides on.

use vstd::prelude::*;

pub mod announce;
pub mod device;
pub mod discovery;
pub mod probe;
pub mod session;
pub mod text;

verus! {

} // verus!
