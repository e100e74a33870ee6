//! Capture of the open top-level windows with their virtual desktops, and the
//! decisions that put a captured set of windows back where it was.

pub mod commands;
pub mod identifier;
pub mod replay;
pub mod window_handler;
