//! Supervisor of a browser engine: it owns one handle per subsystem
//! (renderer, resource loader, image cache, layout, content), turns the
//! messages of client sessions into subsystem commands, and shuts the
//! subsystems down in a fixed order.
use vstd::prelude::*;

pub mod dispatch;
pub mod element_type;
pub mod laws;
pub mod supervisor;
pub mod url;

verus! {

/// The engine's helper macros are written out by hand where they are used,
/// so this entry point has nothing left to do.
pub fn macros() {
}

} // verus!
