//! Decoding and classification of SQLSTATE status codes.
pub mod class;
pub mod code;
pub mod standard;
pub mod laws;
