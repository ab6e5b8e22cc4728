//! Request handling for a virtual-network controller: parsing of configuration
//! requests, the authorization decision, assembly of the signed configuration
//! bundle, response framing and the deadline registry for request tasks.

pub mod authorize;
pub mod controller;
pub mod model;
pub mod reaper;
pub mod wire;
