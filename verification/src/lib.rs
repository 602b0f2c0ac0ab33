//! Host side of a WASI-style system-call interface: the descriptor and
//! rights model, the clock adapter and the decisions of the polling
//! multiplexer.
#![allow(non_upper_case_globals)]
#![allow(non_camel_case_types)]

pub mod clock;
pub mod ctx;
pub mod error;
pub mod fdentry;
pub mod fs;
pub mod fs_helpers;
pub mod host;
pub mod hostcalls;
pub mod memory;
pub mod os;
pub mod poll;
