//! Bounded particle pools for billboard sprite simulations, with the
//! description of the instanced pipeline that draws them.

use vstd::prelude::*;

pub mod draw;
pub mod emission;
pub mod stage;

verus! {

/// `glam::Vec3`, three 32-bit components in 12 bytes. The library stores and
/// hands on such vectors and never looks inside one.
#[verifier::external_type_specification]
#[verifier::external_body]
pub struct ExVec3(glam::Vec3);

} // verus!
