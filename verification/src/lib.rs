//! Warp's out-of-process extension system: the wire vocabulary shared with
//! plugins, the host-side gates and supervision rules, and the Git plugin's
//! parsers and panel model.
pub mod dev;
pub mod example;
pub mod git;
pub mod host;
pub mod protocol;
pub mod sdk;
pub mod text;
