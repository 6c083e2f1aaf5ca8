//! A cross-language call protocol: a caller launches a program, hands it one
//! JSON request on its input and gathers the JSON replies that carry the
//! request's key; the callee reads the request once and emits replies under a
//! uniqueness rule.
use vstd::prelude::*;

pub mod invoker;
pub mod json;
pub mod resolver;
pub mod responder;
pub mod text;

pub use invoker::{split_lines, InputManager, InputManagerResponse};
pub use json::Json;
pub use resolver::{get_command, FileStatus, Language};
pub use responder::{
    cleanup, get_bool, get_data, get_int, get_string, init, output, OutputManagerData,
};

verus! {

} // verus!
