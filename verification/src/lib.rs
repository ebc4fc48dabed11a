//! Resolves human-readable protocol identifiers to locations inside the
//! published specification documents, and decides when a request to the old
//! host must be redirected to the new one.

pub mod params;
pub mod redirect;
pub mod resolver;
pub mod strutil;
