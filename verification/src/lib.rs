//! A small library for setting file timestamps on a Windows filesystem.
//!
//! The library turns user-supplied input (an epoch integer, a date string,
//! or a datetime string) into a canonical UTC instant, and encodes that
//! instant as the native 64-bit file timestamp (100-nanosecond intervals
//! since 1601-01-01T00:00:00Z). The surrounding binary performs the
//! argument handling, the file open, and the OS call.

pub mod calendar;
pub mod error;
pub mod filetime;
pub mod instant;
pub mod parse;
