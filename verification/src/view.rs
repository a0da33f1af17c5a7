//! Render output: colored text segments and the display lines they form.

pub mod line_segment;
pub mod view_line;
