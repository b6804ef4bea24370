//! Hexagonal grid coordinates built on the ring of Eisenstein integers.
//!
//! The ring type [`eisenstein::EisensteinInteger`] represents numbers of the
//! form `a + b*omega`, where `omega` is a primitive cube root of unity
//! (`omega^2 == -1 - omega`).  The coordinate type [`hex::Hex`] wraps one such
//! number and supplies neighbor lookup for the six directions of a hexagonal
//! tiling.

pub mod eisenstein;
pub mod hex;
