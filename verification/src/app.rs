//! What an application tells the engine loop after a frame.

use vstd::prelude::*;

verus! {

/// Whether the engine loop should run another frame or stop.
#[derive(Clone, Copy, Debug, PartialEq, Eq, Structural)]
pub enum LoopState {
    Continue,
    Exit,
}

} // verus!
