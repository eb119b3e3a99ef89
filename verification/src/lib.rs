//! A minimal SOCKS5 proxy core: handshake decoding, reply encoding, the
//! per-connection session state machine, and the relay bookkeeping.
//!
//! The surrounding binary owns the sockets and the scheduler; this crate owns
//! every decision the protocol makes, stated in contracts and proved.

pub mod decimal;
pub mod error;
pub mod handshake;
pub mod relay;
pub mod session;

use vstd::prelude::*;

verus! {

/// Default log-file setting: the empty string, which means "log to stdout only".
pub fn default_log() -> (r: String)
    ensures
        r@ == Seq::<char>::empty(),
{
    String::new()
}

} // verus!
