//! The environment that widgets are handed.

use vstd::prelude::*;

verus! {

/// The environment: the place for what a whole panel shares. It holds
/// nothing so far.
#[derive(Clone, Copy, Debug, Default, PartialEq, Eq, Structural)]
pub struct Env {}

} // verus!
