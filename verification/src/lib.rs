//! A single-producer, many-consumer live image streaming core.
//!
//! One capture device feeds a single-slot frame store; any number of
//! independently paced viewer sessions sample that store, encode, and
//! deliver multipart-framed chunks. The lifecycle controller owns the
//! device handle and the running flag as one atomic state.

pub mod capture;
pub mod frame;
pub mod framer;
pub mod lifecycle;
pub mod session;
pub mod source;
