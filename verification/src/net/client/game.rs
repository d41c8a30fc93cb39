use vstd::prelude::*;

verus! {

/// What only game clients offer.
pub trait GameClientTrait {}

} // verus!
