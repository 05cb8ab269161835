//! The policy a handler returns towards an event's default behavior.

use vstd::prelude::*;

verus! {

/// The policy towards an event: let the default behavior proceed or block
/// it.
#[derive(Debug, Clone, Copy, PartialEq, Eq, Structural)]
pub enum Policy {
    Allow,
    Block,
}

} // verus!
