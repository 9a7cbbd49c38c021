//! Decisions of an interactive shell session on a cluster workload: which bytes
//! of keyboard input reach the remote shell, what the display receives, when the
//! terminal size is handed on, and a single teardown when any source ends.
use vstd::prelude::*;

pub mod discovery;
pub mod geometry;
pub mod input;
pub mod session;
pub mod watcher;

verus! {

} // verus!
