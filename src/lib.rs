//! A blocking storage-operator boundary for callers without an object model:
//! build an operator from a scheme name and key/value options, read whole
//! objects through its handle, and query the last error of the calling
//! context.

pub mod error;
pub mod operator;
pub mod options;
