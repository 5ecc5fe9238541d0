//! Bootstrap resolution for the RSX language server: where the server script
//! lives under a workspace, whether it has to be installed first, and how it
//! is launched.

pub mod acquirer;
pub mod guarantees;
pub mod host;
pub mod layout;
pub mod locator;
pub mod manifest;
pub mod resolver;
pub mod run;
