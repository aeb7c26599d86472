//! The five generation algorithms of the RFC 4122 document, one module
//! each: time-based, DCE-security, name-based over the legacy digest,
//! random, and name-based over the 128-bit digest.

pub mod v1;
pub mod v2;
pub mod v3;
pub mod v4;
pub mod v5;
