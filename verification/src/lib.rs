//! Error chaining: status codes, variant shapes, and the chain protocol.

pub mod chain;
pub mod code;
pub mod error;
pub mod generate;
pub mod parse;
pub mod shape;
pub mod text;

pub use crate::chain::{ChainNode, ExternalCause};
pub use crate::code::StatusCode;
pub use crate::error::{ErrorExt, PlainError, StackError};
pub use crate::generate::stack_trace_debug;
