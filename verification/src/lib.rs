//! Signing and verification workflow for the Falcon post-quantum signature
//! scheme: security-level selection, key encoding and validation, overwrite-safe
//! key persistence planning, input/output resolution, and the signing engine.

pub mod codec;
pub mod engine;
pub mod error;
pub mod falcon;
pub mod input;
pub mod level;
pub mod output;
pub mod paths;
pub mod store;
