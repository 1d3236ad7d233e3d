//! Running a whole script: lexing, parsing and evaluation in one pass, as a host document
//! does for its inline script text.
use crate::parser::{parse_source, JsParser, SyntaxError};
use crate::runtime::{empty_env, run_program, JsRuntime, RuntimeError, MAX_CALL_DEPTH};
use crate::token::JsLexer;
use vstd::prelude::*;

verus! {

/// Why a script could not be run to its end.
#[derive(Debug, Clone, Copy, PartialEq, Eq, Structural)]
pub enum ScriptError {
    /// The text is not a program; nothing ran.
    Syntax(SyntaxError),
    /// Evaluation stopped at an error.
    Runtime(RuntimeError),
}

/// Parses `js` and runs it in a fresh runtime made by `JsRuntime::new`, which it gives back
/// with its bindings.
pub fn execute_js(js: String) -> (r: Result<JsRuntime, ScriptError>)
    ensures
        match parse_source(js@) {
            Err(e) => r == Err::<JsRuntime, ScriptError>(ScriptError::Syntax(e)),
            Ok(items) => match run_program(items, 0, empty_env(), MAX_CALL_DEPTH as nat) {
                (Ok(()), env) => r matches Ok(rt) && rt@ == env,
                (Err(e), _) => r == Err::<JsRuntime, ScriptError>(ScriptError::Runtime(e)),
            },
        },
{
    let lexer = JsLexer::new(js);
    let mut parser = JsParser::new(lexer);
    let program = match parser.parse_ast() {
        Ok(p) => p,
        Err(e) => {
            return Err(ScriptError::Syntax(e));
        },
    };
    let mut runtime = JsRuntime::new();
    match runtime.execute(&program) {
        Ok(()) => Ok(runtime),
        Err(e) => Err(ScriptError::Runtime(e)),
    }
}

} // verus!
