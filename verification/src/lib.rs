//! Fixed-length arrays with element-wise arithmetic.

pub mod access;
pub mod array;
pub mod assign;
pub mod barrier;
pub mod bounded;
pub mod element;
pub mod equality;
pub mod laws;
pub mod ops;

pub use array::NumericArray;
pub use barrier::black_box;
pub use element::Primitive;
