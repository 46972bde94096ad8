//! Plans the provisioning of storage for a freshly installed system: which
//! commands partition a disk, encrypt and format it, mount the target tree and
//! install onto it, and in which order.

pub mod args;
pub mod error;
pub mod functions;
pub mod internal;
pub mod order;
pub mod run;
pub mod step;
pub mod text;
