//! Service supervision and master-key provisioning for the Arbor desktop shell.

pub mod error;
pub mod lifecycle;
pub mod root;
pub mod secret;
pub mod status;
pub mod supervisor;
