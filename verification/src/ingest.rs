//! What the data providers send, once it has been read into values.

pub mod iem;
