//! Renderings of the primitive integers.

pub mod ixx;
pub mod uxx;
