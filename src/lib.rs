//! Zero-copy decoding of binary containers: composable decode contracts
//! that turn a borrowed byte buffer into typed values, each step checked
//! against the buffer's length before any byte is read.

pub mod error;
pub mod declarative;
pub mod primitives;
pub mod array;
pub mod ignored;
pub mod offset;
pub mod args;
