//! Handle registries and connection lifecycle rules for a service that hands
//! out peer connections and media tracks to foreign callers as 32-bit handles.

pub mod codec;
pub mod laws;
pub mod lifecycle;
pub mod peer;
pub mod registry;
