use vstd::prelude::*;

verus! {

/// A record with no fields: it carries no data, only a type to attach
/// behaviour to.
#[derive(Debug, Clone, Copy, PartialEq, Eq, Structural)]
pub struct AlwaysEqual;

} // verus!
