//! Core of an interactive terminal tool for editing version-control history:
//! the commit/diff data model, the event fold that builds it, and the render
//! pipeline that projects it into colored terminal lines.

pub mod commit;
pub mod config;
pub mod input;
pub mod display;
pub mod localtime;
pub mod show_commit;
pub mod strutil;
pub mod unicode;
pub mod view;
