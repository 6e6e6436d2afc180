//! Building the container image.

pub mod compose;
