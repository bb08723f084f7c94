//! Values of the graphics backend that effects carry without looking inside:
//! vertex attribute formats, colour write masks and blend states.
use vstd::prelude::*;

verus! {

/// The backend's description of how a vertex attribute is laid out.
#[verifier::external_type_specification]
#[verifier::external_body]
pub struct ExFormat(gfx::format::Format);

/// The backend's element of a vertex layout: a format and a byte offset.
#[verifier::external_type_specification]
#[verifier::external_body]
#[verifier::reject_recursive_types(F)]
pub struct ExElement<F>(gfx::pso::buffer::Element<F>);

/// The backend's per-channel colour write mask.
#[verifier::external_type_specification]
#[verifier::external_body]
pub struct ExColorMask(gfx::state::ColorMask);

/// The backend's blend state of a colour output.
#[verifier::external_type_specification]
#[verifier::external_body]
pub struct ExBlend(gfx::state::Blend);

/// The layout of one vertex attribute.
pub type AttributeFormat = gfx::pso::buffer::Element<gfx::format::Format>;

/// Named vertex attributes of one vertex buffer.
pub type Attributes<'a> = &'a [(&'a str, AttributeFormat)];

/// Distance in bytes between two consecutive vertices of a buffer.
pub type ElemStride = u8;

/// Number of instances drawn before the next element of a buffer is used;
/// zero for per-vertex data.
pub type InstanceRate = u8;

} // verus!
