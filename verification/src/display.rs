//! Display-side vocabulary: palette roles and color specifications.

pub mod color;
pub mod display_color;
