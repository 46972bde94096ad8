//! What the stages have in common.

pub mod install;
