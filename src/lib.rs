//! Time-rotating digests over a shared secret.
//!
//! A client and a server that share a secret each derive the code for a salt
//! (a client identifier, say) in the current rotation period, with no round
//! trip. The server accepts a code from the current rotation or from a bounded
//! number of rotations before it.
mod clock;
pub mod encoding;
pub mod engine;
pub mod hash;
pub mod laws;

pub use encoding::{be_bytes, message, rotation_bytes};
pub use engine::{Rotkeappchen, RotkeappchenError};
pub use hash::{Blake3, HashFunction};
