use vstd::prelude::*;

verus! {

/// Namespace of the helpers shared by the renderer's components. They all
/// compute on floats (angles, uniform random draws) and so stand with the
/// floating-point renderer, not in this integer core.
pub struct Common {}

} // verus!
