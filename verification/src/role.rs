//! The two roles of a process.

use vstd::prelude::*;

verus! {

/// Which side of the topic the process serves. The choice is made once, at
/// startup, and holds for the life of the process.
#[derive(Debug, PartialEq, Eq, Clone, Copy, Structural)]
pub enum Role {
    /// Publishes a moving shape at a steady pace.
    Publisher,
    /// Takes the updates of the topic and reports them.
    Subscriber,
}

} // verus!
