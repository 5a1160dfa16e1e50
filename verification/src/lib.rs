//! Weather look-ups against interchangeable providers, without the I/O.
//!
//! The library decides what to ask a provider and what its answer means, and
//! it keeps the record of configured providers. Sending a request, decoding a
//! body and reading or writing the record's file are left to the caller, who
//! hands over plain values and gets plain values back.

pub mod api;
pub mod command;
pub mod data;
pub mod error;
pub mod storage;
pub mod ui;
