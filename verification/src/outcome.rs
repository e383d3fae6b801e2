//! How a driver answers a state machine.

use vstd::prelude::*;

verus! {

/// How the action that a state machine asked for went.
#[derive(Clone, Copy, Debug, PartialEq, Eq, Structural)]
pub enum Outcome {
    /// The action was carried out.
    Done,
    /// The action could not be carried out.
    Failed,
}

} // verus!
