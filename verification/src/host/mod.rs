//! Host-side rules for running Warp extensions out of process: framing,
//! supervision, logging, discovery decisions and the gates every request
//! passes before it reaches Warp.
pub mod logging;
pub mod paths;
pub mod lifecycle;
pub mod codec;
pub mod discovery;
pub mod session;
