//! Linear algebra on two- and three-component vectors, square matrices and
//! parallel arrays of vectors.
//!
//! Every number is a [`scalar::Scalar`]: the bit pattern of an IEEE 754
//! single-precision value. Whatever can be decided on the bit pattern alone
//! (negation, comparison, the named constants) is computed here. Rounding
//! arithmetic is not: each function that needs it takes an arithmetic unit, a
//! function from an [`scalar::Op`] and two operands to a result, and its
//! contract states the result in terms of what that unit returns.
//!
//! The array containers come in four kinds, which differ in how they hold
//! their elements: inline ([`vec3arr::Vec3arr`]), on the heap
//! ([`vec3arr::Vec3box`]), borrowed ([`vec3arr::Vec3win`]) and in storage
//! that is never released for them ([`vec3arr::Vec3raw`]). [`dispatch`]
//! tabulates which operations exist between which kinds, [`lockstep`] holds
//! the loops that all of them run, and [`laws`] what holds across them.
pub mod dispatch;
pub mod laws;
pub mod lockstep;
pub mod mat22;
pub mod mat33;
pub mod scalar;
pub mod vec2;
pub mod vec2arr;
pub mod vec3;
pub mod vec3arr;
