//! A typed, platform-polymorphic wrapper around an AI image-scaling SDK.
//!
//! The crate models the lifecycle of SDK *features* (super sampling, frame
//! generation, ray reconstruction): parameter maps, opaque feature handles,
//! the capability-negotiation protocol, and the per-frame assembly of
//! evaluation parameters.  The native entry points of each graphics backend
//! are reached through the `FeatureHandleOps`, `FeatureParameterOps` and
//! `FeatureOps` traits, which backend bindings implement.

pub mod decimal;
pub mod error;
pub mod feature;
pub mod params;
pub mod ray_reconstruction;
pub mod resource;
pub mod super_sampling;
pub mod system;
