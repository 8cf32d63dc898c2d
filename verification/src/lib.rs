//! Session lifecycle and stereo frame loop of an immersive XR renderer.
//!
//! The crate holds the decisions of the renderer and none of its host calls.
//! A driver performs each request that the crate hands out, in the order
//! given, and reports what the host runtime answered. Host objects are named
//! by integer handles that the driver assigns; matrices that the device
//! supplies stay with the driver and are named by the eye they belong to.

pub mod frame;
pub mod negotiation;
pub mod session;
pub mod setup;
pub mod surface;
pub mod xr_app;

pub use crate::surface::create_webgl_context;
pub use crate::xr_app::XrApp;
