//! A verified model of a callback-driven audio stream protocol.
//!
//! The crate centres on the stream lifecycle and callback-bridging rules of a
//! PortAudio-style engine: opening a duplex stream, the state machine of
//! start/stop/abort/close, blocking reads and writes, the trampoline that
//! decodes what the engine hands a user callback, and the bookkeeping that
//! releases the boundary-crossing callback state exactly once.  The hardware
//! engine itself is an external collaborator; here its documented behaviour is
//! played by an in-memory engine inside [`stream::Stream`], which tracks every
//! primitive invocation and every release of callback state so that the
//! protocol rules can be both proved and exercised.

pub use crate::pa::PaError;
pub use crate::pa::PaResult;

pub mod callback;
pub mod demo;
pub mod flags;
pub mod hostapi;
pub mod pa;
pub mod sample;
pub mod stream;
pub mod util;
