//! Smoke-test helpers: synthetic user-record generation with a JSON encoder,
//! a JSON document validator with a typed/generic fallback, URL normalization,
//! and the decision logic of an HTTP API prober.

pub mod json;
pub mod probe;
pub mod records;
pub mod serialize;
pub mod text;
pub mod urls;
pub mod validate;
