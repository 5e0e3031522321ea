//! Names of the things in the world.

use vstd::prelude::*;

verus! {

/// The host's handle of one entity. The rules compare handles and hand them
/// back; they never look inside.
#[derive(Clone, Copy, Debug, PartialEq, Eq, Hash, Structural)]
pub struct Entity(pub u64);

} // verus!
