//! The stages of an installation, each as the plan of its steps.

pub mod base;
pub mod partition;
