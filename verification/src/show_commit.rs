//! The commit display: formatting helpers and the width-aware render
//! pipeline for the overview and unified-diff views.

pub mod data;
pub mod show_commit_state;
pub mod util;
