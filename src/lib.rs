//! The scripting core of a small browser engine: a lexer, a recursive-descent parser and a
//! tree-walking interpreter for a small C-family scripting language.
//!
//! Choices that the language leaves open are fixed as follows.
//! - `+` and `-` take a whole assignment expression as their right operand, so they group to
//!   the right: `1 - 2 - 3` is `1 - (2 - 3)`.
//! - Parsing stops at the first top-level construct that gives no node; what follows it is
//!   not parsed.
//! - Lexing errors and malformed function declarations end the parse with an error; any other
//!   malformed spot leaves an absent child in the tree.
//! - Functions live in a map apart from the variables and are registered when their
//!   declaration is evaluated (no hoisting); a call finds its callee's name in that map.
//! - Numbers are `u64` with wrapping arithmetic; `+` on two strings concatenates.
//! - Property lookups find nothing, as no host objects are exposed: they give undefined.
//! - Calls nest at most as deep as the runtime's call limit, which the host may choose
//!   (`JsRuntime::with_call_limit`); `MAX_CALL_DEPTH` by default.
use vstd::prelude::*;

pub mod ast;
pub mod parser;
pub mod runtime;
pub mod script;
pub mod token;

pub use ast::{Node, Program};
pub use parser::{JsParser, SyntaxError};
pub use runtime::{JsRuntime, RuntimeError, RuntimeValue, MAX_CALL_DEPTH};
pub use script::{execute_js, ScriptError};
pub use token::{JsLexer, LexError, Token};
