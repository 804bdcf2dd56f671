//! Typed extraction of JSON request bodies: a body is parsed into a generic
//! JSON value, which a pluggable, fallible deserialization contract turns into
//! a domain value; every failure surfaces as one structured response error.

pub mod error;
pub mod json;
pub mod extract;
