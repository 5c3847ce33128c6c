//! The virtual machine boundary: the boxed value representation.

pub mod value;
