//! The wire vocabulary shared between Warp and out-of-process extensions:
//! method and event names, the manifest Warp reads before starting a plugin,
//! the permissions a manifest can request, and the capability tokens Warp
//! advertises during the handshake.
pub mod capabilities;
pub mod permissions;
pub mod events;
pub mod methods;
pub mod wire;
pub mod manifest;
