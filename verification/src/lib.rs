//! Process-lifecycle and coordination core of a desktop companion for a
//! virtual-reality compositor.
//!
//! The library models and verifies the decisions this layer makes: the
//! degrade-gracefully startup sequencing for optional external peers, the
//! exclusive-access discipline for the shared XR-runtime handle, the
//! request-correlation identifier generator, and the dispatch rules of the
//! bridge that forwards compositor signals to the user-interface event
//! channel. The surrounding I/O — the actual connection attempts, the
//! asynchronous locking, and the event emission — is performed by the host
//! program, which feeds their outcomes to the functions here as plain values.

pub mod serial;
pub mod signal;
pub mod state;
