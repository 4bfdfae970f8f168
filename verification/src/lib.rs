//! Marshaling of HKDF mechanism parameters for a PKCS#11-style token
//! interface.
//!
//! The crate translates a tagged, high-level description of an HKDF
//! configuration (extract/expand flags, PRF hash mechanism, salt variant,
//! info bytes) into a flat, fixed-layout record of the shape the token
//! expects — raw byte flags, a numeric salt-kind discriminant, and
//! pointer/length pairs modeled here as borrowed slices — and back.

pub mod hkdf;
pub mod mechanism;
pub mod object;
