//! Analytic geometry of vectors, lines and planes in three-dimensional space.
//!
//! The library never names a number type. Every item is generic over a
//! [`scalar::Scalar`]: a copyable type with the four arithmetic operators,
//! negation, comparison and a conversion from small integers. Square root
//! and arc cosine, which no operator trait offers, reach the library through
//! a [`scalar::Metric`] that the caller builds.
//!
//! Contracts are stated for scalars whose operators are total and give one
//! result per argument pair ([`scalar::well_behaved`]). They say which value
//! each function returns in terms of those operators, so that they hold of
//! rounded arithmetic as they stand. Laws that need exact arithmetic are
//! proved in [`laws`], for scalars that compute as the real numbers do
//! ([`scalar::exact`]).

pub mod laws;
pub mod line;
pub mod math;
pub mod plain;
pub mod scalar;
pub mod vector;
