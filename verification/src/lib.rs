//! Effects of a render pass: shader program sources, the builder that
//! assembles a pipeline state description, and the effect that a pass draws
//! with.

pub mod builder;
pub mod effect;
pub mod gfx_types;
pub mod pass;
pub mod program;
pub mod shaded;
pub mod state;
