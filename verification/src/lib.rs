//! Nonnegative matrix factorization by multiplicative updates.
//!
//! The factor matrices hold IEEE 754 binary64 numbers as their 64-bit
//! encodings. Everything that is decided about a factorization — shapes,
//! the layout of the orthogonality matrix, the substitution that keeps every
//! entry away from zero, and when an update is rejected — is decided here.
//! The products and quotients themselves are computed by a numeric backend
//! outside this crate and handed in as encoded matrices.

pub mod array;
pub mod bits;
pub mod dmat;
pub mod error;
pub mod online_nmf;
pub mod orthogonal_nmf_blas;
pub mod testimage;
pub mod update_rule;

pub use array::Array;
pub use dmat::DMat;
pub use error::NmfError;
pub use online_nmf::OnlineNMF;
pub use orthogonal_nmf_blas::{OrthogonalNMFBlas, ShapeAsTuple};
