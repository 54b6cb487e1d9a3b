//! What holds of the geometry where the scalars compute exactly.
//!
//! Rounded arithmetic keeps few of these laws. Each is proved for a scalar
//! type with a one-to-one valuation in the real numbers under which its
//! operators are the real ones.

pub mod dependencies;
pub mod equations;
pub mod lines;
pub mod planes;
pub mod reals;
pub mod scalars;
pub mod vectors;
