//! The tree-walking interpreter.
//!
//! Variables live in a global scope and, while a function runs, in a local frame that
//! shadows it. Functions live in a map of their own, also global with a local frame during a
//! call: a declaration registers its name there when it is evaluated (there is no hoisting)
//! and leaves the variables alone. A call whose callee is a name finds its function in that
//! map. Calls nest at most as deep as the runtime's call limit, which bounds every run. No
//! host objects are exposed, so a property lookup finds nothing and gives undefined.
use crate::ast::{body_view, list_view, node_view, opt_view, unboxed, Ast, Node, Program};
use crate::parser::{
    at, p_additive, p_assignment, p_lhs, p_member, p_primary, p_program, p_source_element,
    p_statement, p_statement_core, Parsed, SyntaxError,
};
use crate::parser::parse_source;
use crate::token::{
    all_digits, digits_value, is_digit, lemma_scan_digits, lemma_shift_lex_from, lex_from,
    next_token, skip_space, LexError, Tok, TokenStream,
};
use std::rc::Rc;
use vstd::prelude::*;
use vstd::wrapping::u64_specs::{wrapping_add, wrapping_sub};

verus! {

/// How deep calls may nest in a runtime made by `JsRuntime::new`.
pub const MAX_CALL_DEPTH: u64 = 200;

/// A value produced by evaluation.
#[derive(Debug, Clone, PartialEq)]
pub enum RuntimeValue {
    Number(u64),
    String(String),
    /// A function, held as its declaration node.
    Function(Rc<Node>),
    Undefined,
}

/// The mathematical value of a runtime value.
pub enum Val {
    Number(u64),
    Str(Seq<char>),
    Function(Ast),
    Undefined,
}

impl View for RuntimeValue {
    type V = Val;

    open spec fn view(&self) -> Val {
        match self {
            RuntimeValue::Number(n) => Val::Number(*n),
            RuntimeValue::String(s) => Val::Str(s@),
            RuntimeValue::Function(f) => Val::Function(node_view(**f)),
            RuntimeValue::Undefined => Val::Undefined,
        }
    }
}

/// Why evaluation stopped. Each of these ends the run of the whole program.
#[derive(Debug, Clone, Copy, PartialEq, Eq, Structural)]
pub enum RuntimeError {
    /// A name that no scope binds.
    UnresolvedIdentifier,
    /// A call whose callee is not a name.
    NotCallable,
    /// A call of a name that no function map binds.
    UndeclaredFunction,
    /// An operator applied to values it does not accept.
    TypeMismatch,
    /// An operator that the language does not have.
    UnsupportedOperator,
    /// An assignment to something other than a name.
    InvalidAssignmentTarget,
    /// Calls nested deeper than the runtime's call limit.
    CallDepthExceeded,
}

/// A scope: names and their values; the first entry for a name is its binding.
pub type Scope = Seq<(Seq<char>, Val)>;

/// The bindings visible to evaluation: the global variables and functions and, inside a
/// call, the local frames of both. Function maps bind names to `Val::Function` values.
pub struct Env {
    pub globals: Scope,
    pub locals: Option<Scope>,
    pub functions: Scope,
    pub local_functions: Option<Scope>,
}

/// How evaluating a node ended: with a value (or none), or with a `return` that is on its
/// way to the nearest call.
pub enum Outcome {
    Value(Option<Val>),
    Return(Val),
}

/// The first index at or after `i` whose name is `n`.
pub open spec fn find_from(s: Scope, n: Seq<char>, i: int) -> Option<int>
    decreases s.len() - i,
{
    if i < 0 || i >= s.len() {
        None
    } else if s[i].0 == n {
        Some(i)
    } else {
        find_from(s, n, i + 1)
    }
}

pub proof fn lemma_find_from(s: Scope, n: Seq<char>, i: int)
    ensures
        find_from(s, n, i) matches Some(j) ==> 0 <= i <= j < s.len() && s[j].0 == n,
    decreases s.len() - i,
{
    if 0 <= i < s.len() && s[i].0 != n {
        lemma_find_from(s, n, i + 1);
    }
}

pub open spec fn scope_get(s: Scope, n: Seq<char>) -> Option<Val> {
    match find_from(s, n, 0) {
        Some(i) => Some(s[i].1),
        None => None,
    }
}

/// The scope with `n` bound to `v`: its binding replaced, or a new one added at the end.
pub open spec fn scope_put(s: Scope, n: Seq<char>, v: Val) -> Scope {
    match find_from(s, n, 0) {
        Some(i) => s.update(i, (n, v)),
        None => s.push((n, v)),
    }
}

/// The value of a variable: the local frame first, then the global scope.
pub open spec fn lookup(env: Env, n: Seq<char>) -> Option<Val> {
    match env.locals {
        Some(l) => match scope_get(l, n) {
            Some(v) => Some(v),
            None => scope_get(env.globals, n),
        },
        None => scope_get(env.globals, n),
    }
}

/// The function registered as `n`: the local frame first, then the global map.
pub open spec fn lookup_function(env: Env, n: Seq<char>) -> Option<Val> {
    match env.local_functions {
        Some(l) => match scope_get(l, n) {
            Some(v) => Some(v),
            None => scope_get(env.functions, n),
        },
        None => scope_get(env.functions, n),
    }
}

/// What a name denotes: its variable, or else its function.
pub open spec fn resolve(env: Env, n: Seq<char>) -> Option<Val> {
    match lookup(env, n) {
        Some(v) => Some(v),
        None => lookup_function(env, n),
    }
}

/// Binds variable `n` in the current scope: the local frame inside a call, else the global
/// scope.
pub open spec fn declare(env: Env, n: Seq<char>, v: Val) -> Env {
    match env.locals {
        Some(l) => Env { locals: Some(scope_put(l, n, v)), ..env },
        None => Env { globals: scope_put(env.globals, n, v), ..env },
    }
}

/// Registers function `n` in the current function map: the local one inside a call, else
/// the global one.
pub open spec fn declare_function(env: Env, n: Seq<char>, f: Val) -> Env {
    match env.local_functions {
        Some(l) => Env { local_functions: Some(scope_put(l, n, f)), ..env },
        None => Env { functions: scope_put(env.functions, n, f), ..env },
    }
}

/// Rebinds `n` in the nearest scope that binds it, or binds it in the current scope.
pub open spec fn assign(env: Env, n: Seq<char>, v: Val) -> Env {
    match env.locals {
        Some(l) => if find_from(l, n, 0) is Some {
            Env { locals: Some(scope_put(l, n, v)), ..env }
        } else if find_from(env.globals, n, 0) is Some {
            Env { globals: scope_put(env.globals, n, v), ..env }
        } else {
            declare(env, n, v)
        },
        None => declare(env, n, v),
    }
}

/// The value that an outcome hands to an enclosing expression.
pub open spec fn operand(o: Outcome) -> Option<Val> {
    match o {
        Outcome::Value(v) => v,
        Outcome::Return(v) => Some(v),
    }
}

pub open spec fn or_undefined(v: Option<Val>) -> Val {
    match v {
        Some(x) => x,
        None => Val::Undefined,
    }
}

/// `+` and `-` on two values: wrapping arithmetic on numbers, and `+` concatenates strings.
pub open spec fn arith(op: char, l: Val, r: Val) -> Result<Outcome, RuntimeError> {
    if op == '+' {
        match (l, r) {
            (Val::Number(a), Val::Number(b)) => Ok(Outcome::Value(Some(Val::Number(wrapping_add(a, b))))),
            (Val::Str(a), Val::Str(b)) => Ok(Outcome::Value(Some(Val::Str(a + b)))),
            _ => Err(RuntimeError::TypeMismatch),
        }
    } else if op == '-' {
        match (l, r) {
            (Val::Number(a), Val::Number(b)) => Ok(Outcome::Value(Some(Val::Number(wrapping_sub(a, b))))),
            _ => Err(RuntimeError::TypeMismatch),
        }
    } else {
        Err(RuntimeError::UnsupportedOperator)
    }
}

/// The local frame of a call: each parameter that is a name bound, in order, to the argument
/// at its position, or to undefined when there is none.
pub open spec fn bind_params(params: Seq<Option<Ast>>, args: Seq<Val>, k: int, frame: Scope) -> Scope
    decreases params.len() - k,
{
    if k < 0 || k >= params.len() {
        frame
    } else {
        let f = match params[k] {
            Some(Ast::Identifier(n)) => scope_put(
                frame,
                n,
                if k < args.len() { args[k] } else { Val::Undefined },
            ),
            _ => frame,
        };
        bind_params(params, args, k + 1, f)
    }
}

/// Evaluates a node (absent: nothing to evaluate) with calls allowed to nest `depth` deeper.
/// Gives how it ended and the bindings after it.
pub open spec fn eval(a: Option<Ast>, env: Env, depth: nat) -> (Result<Outcome, RuntimeError>, Env)
    decreases depth, a, 0nat,
{
    match a {
        None => (Ok(Outcome::Value(None)), env),
        Some(node) => match node {
            Ast::ExpressionStatement(e) => eval(unboxed(e), env, depth),
            Ast::NumericLiteral(v) => (Ok(Outcome::Value(Some(Val::Number(v)))), env),
            Ast::StringLiteral(s) => (Ok(Outcome::Value(Some(Val::Str(s)))), env),
            Ast::Identifier(n) => match resolve(env, n) {
                Some(v) => (Ok(Outcome::Value(Some(v))), env),
                None => (Err(RuntimeError::UnresolvedIdentifier), env),
            },
            Ast::AdditiveExpression { operator, left, right } => {
                let (rl, env1) = eval(unboxed(left), env, depth);
                match rl {
                    Err(e) => (Err(e), env1),
                    Ok(ol) => match operand(ol) {
                        None => (Ok(Outcome::Value(None)), env1),
                        Some(lv) => {
                            let (rr, env2) = eval(unboxed(right), env1, depth);
                            match rr {
                                Err(e) => (Err(e), env2),
                                Ok(or) => match operand(or) {
                                    None => (Ok(Outcome::Value(None)), env2),
                                    Some(rv) => (arith(operator, lv, rv), env2),
                                },
                            }
                        },
                    },
                }
            },
            Ast::AssignmentExpression { operator, left, right } => if operator != '=' {
                (Err(RuntimeError::UnsupportedOperator), env)
            } else {
                let (rr, env1) = eval(unboxed(right), env, depth);
                match rr {
                    Err(e) => (Err(e), env1),
                    Ok(o) => {
                        let v = or_undefined(operand(o));
                        match unboxed(left) {
                            Some(Ast::Identifier(n)) => (
                                Ok(Outcome::Value(Some(v))),
                                assign(env1, n, v),
                            ),
                            _ => (Err(RuntimeError::InvalidAssignmentTarget), env1),
                        }
                    },
                }
            },
            Ast::MemberExpression { object, property } => {
                let (ro, env1) = eval(unboxed(object), env, depth);
                match ro {
                    Err(e) => (Err(e), env1),
                    Ok(_) => (Ok(Outcome::Value(Some(Val::Undefined))), env1),
                }
            },
            Ast::VariableDeclaration { declarations } => eval_block(declarations, 0, env, depth),
            Ast::VariableDeclarator { id, init } => {
                let (ri, env1) = eval(unboxed(init), env, depth);
                match ri {
                    Err(e) => (Err(e), env1),
                    Ok(o) => match unboxed(id) {
                        Some(Ast::Identifier(n)) => (
                            Ok(Outcome::Value(None)),
                            declare(env1, n, or_undefined(operand(o))),
                        ),
                        _ => (Ok(Outcome::Value(None)), env1),
                    },
                }
            },
            Ast::BlockStatement { body } => eval_block(body, 0, env, depth),
            Ast::ReturnStatement { argument } => {
                let (ra, env1) = eval(unboxed(argument), env, depth);
                match ra {
                    Err(e) => (Err(e), env1),
                    Ok(o) => (Ok(Outcome::Return(or_undefined(operand(o)))), env1),
                }
            },
            Ast::FunctionDeclaration { id, params, body } => match unboxed(id) {
                Some(Ast::Identifier(n)) => (
                    Ok(Outcome::Value(None)),
                    declare_function(env, n, Val::Function(node)),
                ),
                _ => (Ok(Outcome::Value(None)), env),
            },
            Ast::CallExpression { callee, arguments } => match unboxed(callee) {
                Some(Ast::Identifier(n)) => match lookup_function(env, n) {
                    Some(Val::Function(Ast::FunctionDeclaration { id, params, body })) => {
                        let (ra, env1) = eval_args(arguments, 0, env, depth);
                        match ra {
                            Err(e) => (Err(e), env1),
                            Ok(vals) => if depth == 0 {
                                (Err(RuntimeError::CallDepthExceeded), env1)
                            } else {
                                let inner = Env {
                                    locals: Some(bind_params(params, vals, 0, seq![])),
                                    local_functions: Some(seq![]),
                                    ..env1
                                };
                                let (rb, env2) = eval(unboxed(body), inner, (depth - 1) as nat);
                                let back = Env {
                                    locals: env1.locals,
                                    local_functions: env1.local_functions,
                                    ..env2
                                };
                                match rb {
                                    Err(e) => (Err(e), back),
                                    Ok(Outcome::Return(v)) => (Ok(Outcome::Value(Some(v))), back),
                                    Ok(Outcome::Value(_)) => (
                                        Ok(Outcome::Value(Some(Val::Undefined))),
                                        back,
                                    ),
                                }
                            },
                        }
                    },
                    _ => (Err(RuntimeError::UndeclaredFunction), env),
                },
                _ => (Err(RuntimeError::NotCallable), env),
            },
        },
    }
}

/// Evaluates `s[k..]` in order. A `return` stops the rest and is handed on; otherwise the
/// list gives no value.
pub open spec fn eval_block(s: Seq<Option<Ast>>, k: int, env: Env, depth: nat) -> (Result<
    Outcome,
    RuntimeError,
>, Env)
    decreases depth, s, s.len() - k,
{
    if k < 0 || k >= s.len() {
        (Ok(Outcome::Value(None)), env)
    } else {
        let (r, env1) = eval(s[k], env, depth);
        match r {
            Err(e) => (Err(e), env1),
            Ok(Outcome::Return(v)) => (Ok(Outcome::Return(v)), env1),
            Ok(Outcome::Value(_)) => eval_block(s, k + 1, env1, depth),
        }
    }
}

/// Evaluates the arguments `s[k..]` left to right; an absent one gives undefined.
pub open spec fn eval_args(s: Seq<Option<Ast>>, k: int, env: Env, depth: nat) -> (Result<
    Seq<Val>,
    RuntimeError,
>, Env)
    decreases depth, s, s.len() - k,
{
    if k < 0 || k >= s.len() {
        (Ok(seq![]), env)
    } else {
        let (r, env1) = eval(s[k], env, depth);
        match r {
            Err(e) => (Err(e), env1),
            Ok(o) => {
                let (rest, env2) = eval_args(s, k + 1, env1, depth);
                match rest {
                    Err(e) => (Err(e), env2),
                    Ok(vs) => (Ok(seq![or_undefined(operand(o))] + vs), env2),
                }
            },
        }
    }
}

/// Runs the top-level nodes `items[k..]` in order, each allowed `limit` nested calls. An error
/// stops the run; so does a `return` at top level, without error.
pub open spec fn run_program(items: Seq<Ast>, k: int, env: Env, limit: nat) -> (Result<
    (),
    RuntimeError,
>, Env)
    decreases items.len() - k,
{
    if k < 0 || k >= items.len() {
        (Ok(()), env)
    } else {
        let (r, env1) = eval(Some(items[k]), env, limit);
        match r {
            Err(e) => (Err(e), env1),
            Ok(Outcome::Return(_)) => (Ok(()), env1),
            Ok(Outcome::Value(_)) => run_program(items, k + 1, env1, limit),
        }
    }
}


/// Argument evaluation that has produced `done` and has `rest` still to come gives `whole`.
pub open spec fn args_continue(
    whole: (Result<Seq<Val>, RuntimeError>, Env),
    done: Seq<Val>,
    rest: (Result<Seq<Val>, RuntimeError>, Env),
) -> bool {
    &&& whole.1 == rest.1
    &&& match rest.0 {
        Ok(vs) => whole.0 == Ok::<Seq<Val>, RuntimeError>(done + vs),
        Err(e) => whole.0 == Err::<Seq<Val>, RuntimeError>(e),
    }
}

/// The value of a scope of the interpreter.
pub open spec fn scope_view(s: Seq<(String, RuntimeValue)>) -> Scope {
    s.map_values(|p: (String, RuntimeValue)| (p.0@, p.1@))
}

pub open spec fn values_view(s: Seq<RuntimeValue>) -> Seq<Val> {
    s.map_values(|v: RuntimeValue| v@)
}

pub open spec fn opt_val(v: Option<RuntimeValue>) -> Option<Val> {
    match v {
        Some(x) => Some(x@),
        None => None,
    }
}

/// The bindings of a runtime that has run nothing yet.
pub open spec fn empty_env() -> Env {
    Env { globals: seq![], locals: None, functions: seq![], local_functions: None }
}

/// How evaluating a node ended, as the interpreter holds it.
enum Completion {
    Value(Option<RuntimeValue>),
    Return(RuntimeValue),
}

spec fn outcome_of(c: Completion) -> Outcome {
    match c {
        Completion::Value(v) => Outcome::Value(opt_val(v)),
        Completion::Return(v) => Outcome::Return(v@),
    }
}

spec fn result_view(r: Result<Completion, RuntimeError>) -> Result<Outcome, RuntimeError> {
    match r {
        Ok(c) => Ok(outcome_of(c)),
        Err(e) => Err(e),
    }
}

/// Relies on `Rc::clone`: another handle to the same node.
#[verifier::external_body]
fn share(n: &Rc<Node>) -> (r: Rc<Node>)
    ensures
        r == *n,
{
    Rc::clone(n)
}

fn duplicate(v: &RuntimeValue) -> (r: RuntimeValue)
    ensures
        r@ == v@,
{
    match v {
        RuntimeValue::Number(n) => RuntimeValue::Number(*n),
        RuntimeValue::String(s) => RuntimeValue::String(s.clone()),
        RuntimeValue::Function(f) => RuntimeValue::Function(share(f)),
        RuntimeValue::Undefined => RuntimeValue::Undefined,
    }
}

fn find(s: &Vec<(String, RuntimeValue)>, n: &String) -> (r: Option<usize>)
    ensures
        match find_from(scope_view(s@), n@, 0) {
            Some(i) => r matches Some(k) && k as int == i,
            None => r is None,
        },
        r matches Some(k) ==> k < s.len(),
{
    let ghost sv = scope_view(s@);
    let mut i: usize = 0;
    while i < s.len() && !(s[i].0 == *n)
        invariant
            i <= s.len(),
            sv == scope_view(s@),
            find_from(sv, n@, i as int) == find_from(sv, n@, 0),
        decreases s.len() - i,
    {
        i = i + 1;
    }
    proof {
        lemma_find_from(sv, n@, 0);
    }
    if i < s.len() {
        Some(i)
    } else {
        None
    }
}

fn scope_value(s: &Vec<(String, RuntimeValue)>, n: &String) -> (r: Option<RuntimeValue>)
    ensures
        opt_val(r) == scope_get(scope_view(s@), n@),
{
    match find(s, n) {
        Some(i) => {
            proof {
                assert(scope_view(s@)[i as int] == (s@[i as int].0@, s@[i as int].1@));
            }
            Some(duplicate(&s[i].1))
        },
        None => None,
    }
}

fn scope_bind(s: &mut Vec<(String, RuntimeValue)>, n: String, v: RuntimeValue)
    ensures
        scope_view(final(s)@) == scope_put(scope_view(old(s)@), n@, v@),
{
    let ghost nv = n@;
    let ghost vv = v@;
    match find(s, &n) {
        Some(i) => {
            s.set(i, (n, v));
            proof {
                assert(scope_view(s@) =~= scope_view(old(s)@).update(i as int, (nv, vv)));
            }
        },
        None => {
            s.push((n, v));
            proof {
                assert(scope_view(s@) =~= scope_view(old(s)@).push((nv, vv)));
            }
        },
    }
}

fn operand_of(c: Completion) -> (r: Option<RuntimeValue>)
    ensures
        opt_val(r) == operand(outcome_of(c)),
{
    match c {
        Completion::Value(v) => v,
        Completion::Return(v) => Some(v),
    }
}

fn value_or_undefined(v: Option<RuntimeValue>) -> (r: RuntimeValue)
    ensures
        r@ == or_undefined(opt_val(v)),
{
    match v {
        Some(x) => x,
        None => RuntimeValue::Undefined,
    }
}

fn apply_arith(op: char, l: RuntimeValue, r: RuntimeValue) -> (res: Result<Completion, RuntimeError>)
    ensures
        result_view(res) == arith(op, l@, r@),
{
    if op == '+' {
        match (l, r) {
            (RuntimeValue::Number(a), RuntimeValue::Number(b)) => Ok(
                Completion::Value(Some(RuntimeValue::Number(a.wrapping_add(b)))),
            ),
            (RuntimeValue::String(a), RuntimeValue::String(b)) => {
                let mut s = a;
                s.append(b.as_str());
                Ok(Completion::Value(Some(RuntimeValue::String(s))))
            },
            _ => Err(RuntimeError::TypeMismatch),
        }
    } else if op == '-' {
        match (l, r) {
            (RuntimeValue::Number(a), RuntimeValue::Number(b)) => Ok(
                Completion::Value(Some(RuntimeValue::Number(a.wrapping_sub(b)))),
            ),
            _ => Err(RuntimeError::TypeMismatch),
        }
    } else {
        Err(RuntimeError::UnsupportedOperator)
    }
}

/// Builds the local frame of a call from its parameters and argument values.
fn bind_parameters(params: &Vec<Option<Rc<Node>>>, args: &Vec<RuntimeValue>) -> (r: Vec<
    (String, RuntimeValue),
>)
    ensures
        scope_view(r@) == bind_params(list_view(*params), values_view(args@), 0, seq![]),
{
    let ghost lp = list_view(*params);
    let ghost va = values_view(args@);
    let mut frame: Vec<(String, RuntimeValue)> = Vec::new();
    let mut k: usize = 0;
    proof {
        assert(scope_view(frame@) =~= Seq::<(Seq<char>, Val)>::empty());
    }
    while k < params.len()
        invariant
            k <= params.len(),
            lp == list_view(*params),
            va == values_view(args@),
            bind_params(lp, va, 0, seq![]) == bind_params(lp, va, k as int, scope_view(frame@)),
        decreases params.len() - k,
    {
        match &params[k] {
            Some(p) => match &**p {
                Node::Identifier(name) => {
                    let v = if k < args.len() {
                        duplicate(&args[k])
                    } else {
                        RuntimeValue::Undefined
                    };
                    scope_bind(&mut frame, name.clone(), v);
                },
                _ => {},
            },
            None => {},
        }
        k = k + 1;
    }
    frame
}

/// The state of the interpreter: the global variables and functions, their local frames
/// while a call runs, and how deep calls may nest.
pub struct JsRuntime {
    globals: Vec<(String, RuntimeValue)>,
    locals: Option<Vec<(String, RuntimeValue)>>,
    functions: Vec<(String, RuntimeValue)>,
    local_functions: Option<Vec<(String, RuntimeValue)>>,
    call_limit: u64,
}

spec fn opt_scope_view(s: Option<Vec<(String, RuntimeValue)>>) -> Option<Scope> {
    match s {
        Some(l) => Some(scope_view(l@)),
        None => None,
    }
}

impl View for JsRuntime {
    type V = Env;

    closed spec fn view(&self) -> Env {
        Env {
            globals: scope_view(self.globals@),
            locals: opt_scope_view(self.locals),
            functions: scope_view(self.functions@),
            local_functions: opt_scope_view(self.local_functions),
        }
    }
}

impl JsRuntime {
    /// How deep calls may nest in this runtime.
    pub closed spec fn call_limit(&self) -> nat {
        self.call_limit as nat
    }

    /// A runtime with no bindings, whose calls may nest `MAX_CALL_DEPTH` deep.
    pub fn new() -> (r: Self)
        ensures
            r@ == empty_env(),
            r.call_limit() == MAX_CALL_DEPTH,
    {
        Self::with_call_limit(MAX_CALL_DEPTH)
    }

    /// A runtime with no bindings, whose calls may nest `limit` deep. Each nested call takes
    /// room on the host's stack, which the host sizes the limit to.
    pub fn with_call_limit(limit: u64) -> (r: Self)
        ensures
            r@ == empty_env(),
            r.call_limit() == limit,
    {
        let r = Self {
            globals: Vec::new(),
            locals: None,
            functions: Vec::new(),
            local_functions: None,
            call_limit: limit,
        };
        proof {
            assert(r@.globals =~= empty_env().globals);
            assert(r@.functions =~= empty_env().functions);
        }
        r
    }

    /// What `name` denotes: its variable, or else its function.
    pub fn get(&self, name: &String) -> (r: Option<RuntimeValue>)
        ensures
            opt_val(r) == resolve(self@, name@),
    {
        let v = match &self.locals {
            Some(l) => match scope_value(l, name) {
                Some(v) => Some(v),
                None => scope_value(&self.globals, name),
            },
            None => scope_value(&self.globals, name),
        };
        match v {
            Some(v) => Some(v),
            None => self.function_named(name),
        }
    }

    fn function_named(&self, name: &String) -> (r: Option<RuntimeValue>)
        ensures
            opt_val(r) == lookup_function(self@, name@),
    {
        match &self.local_functions {
            Some(l) => match scope_value(l, name) {
                Some(v) => Some(v),
                None => scope_value(&self.functions, name),
            },
            None => scope_value(&self.functions, name),
        }
    }

    fn declare_value(&mut self, name: String, v: RuntimeValue)
        ensures
            final(self)@ == declare(old(self)@, name@, v@),
            final(self).call_limit == old(self).call_limit,
    {
        match &mut self.locals {
            Some(l) => scope_bind(l, name, v),
            None => scope_bind(&mut self.globals, name, v),
        }
    }

    fn declare_function_value(&mut self, name: String, f: RuntimeValue)
        ensures
            final(self)@ == declare_function(old(self)@, name@, f@),
            final(self).call_limit == old(self).call_limit,
    {
        match &mut self.local_functions {
            Some(l) => scope_bind(l, name, f),
            None => scope_bind(&mut self.functions, name, f),
        }
    }

    fn assign_value(&mut self, name: String, v: RuntimeValue)
        ensures
            final(self)@ == assign(old(self)@, name@, v@),
            final(self).call_limit == old(self).call_limit,
    {
        let in_locals = match &self.locals {
            Some(l) => find(l, &name).is_some(),
            None => false,
        };
        if in_locals {
            self.declare_value(name, v);
        } else if self.locals.is_some() && find(&self.globals, &name).is_some() {
            scope_bind(&mut self.globals, name, v);
        } else {
            self.declare_value(name, v);
        }
    }

    /// Runs the top-level nodes of `program` in order, stopping at the first error.
    pub fn execute(&mut self, program: &Program) -> (r: Result<(), RuntimeError>)
        ensures
            (r, final(self)@) == run_program(program@, 0, old(self)@, old(self).call_limit()),
            final(self).call_limit() == old(self).call_limit(),
    {
        let body = program.body();
        let ghost items = program@;
        let limit = self.call_limit;
        let mut i: usize = 0;
        while i < body.len()
            invariant
                i <= body.len(),
                body_view(body@) == items,
                items == program@,
                limit == old(self).call_limit,
                self.call_limit == limit,
                run_program(items, 0, old(self)@, limit as nat) == run_program(
                    items,
                    i as int,
                    self@,
                    limit as nat,
                ),
            decreases body.len() - i,
        {
            let node = Some(share(&body[i]));
            proof {
                assert(items[i as int] == node_view(*body@[i as int]));
            }
            let r = self.eval_node(&node, limit);
            match r {
                Err(e) => {
                    return Err(e);
                },
                Ok(Completion::Return(_)) => {
                    return Ok(());
                },
                Ok(Completion::Value(_)) => {},
            }
            i = i + 1;
        }
        Ok(())
    }

    /// Evaluates one node, with calls allowed to nest as deep as the call limit; a `return`
    /// gives its value. A function declaration registers its function and leaves every
    /// variable as it was.
    pub fn eval(&mut self, node: &Option<Rc<Node>>) -> (r: Result<Option<RuntimeValue>, RuntimeError>)
        ensures
            final(self)@ == eval(opt_view(*node), old(self)@, old(self).call_limit()).1,
            match eval(opt_view(*node), old(self)@, old(self).call_limit()).0 {
                Ok(o) => r is Ok && opt_val(r->Ok_0) == operand(o),
                Err(e) => r == Err::<Option<RuntimeValue>, RuntimeError>(e),
            },
            final(self).call_limit() == old(self).call_limit(),
            opt_view(*node) matches Some(Ast::FunctionDeclaration { .. }) ==> {
                &&& r matches Ok(None)
                &&& final(self)@.globals == old(self)@.globals
                &&& final(self)@.locals == old(self)@.locals
            },
    {
        let limit = self.call_limit;
        match self.eval_node(node, limit) {
            Ok(c) => Ok(operand_of(c)),
            Err(e) => Err(e),
        }
    }

    fn eval_node(&mut self, node: &Option<Rc<Node>>, depth: u64) -> (r: Result<
        Completion,
        RuntimeError,
    >)
        ensures
            (result_view(r), final(self)@) == eval(opt_view(*node), old(self)@, depth as nat),
            final(self).call_limit == old(self).call_limit,
        decreases depth, *node, 0nat,
    {
        match node {
            Some(rc) => self.eval_rc(rc, depth),
            None => Ok(Completion::Value(None)),
        }
    }

    fn eval_rc(&mut self, rc: &Rc<Node>, depth: u64) -> (r: Result<Completion, RuntimeError>)
        ensures
            (result_view(r), final(self)@) == eval(Some(node_view(**rc)), old(self)@, depth as nat),
            final(self).call_limit == old(self).call_limit,
        decreases depth, *rc, 2nat,
    {
        match &**rc {
            Node::ExpressionStatement(e) => self.eval_node(e, depth),
            Node::NumericLiteral(v) => Ok(Completion::Value(Some(RuntimeValue::Number(*v)))),
            Node::StringLiteral(s) => Ok(Completion::Value(Some(RuntimeValue::String(s.clone())))),
            Node::Identifier(name) => match self.get(name) {
                Some(v) => Ok(Completion::Value(Some(v))),
                None => Err(RuntimeError::UnresolvedIdentifier),
            },
            Node::AdditiveExpression { .. } => self.eval_additive(rc, depth),
            Node::AssignmentExpression { .. } => self.eval_assignment(rc, depth),
            Node::MemberExpression { object, property: _ } => {
                match self.eval_node(object, depth) {
                    Err(e) => Err(e),
                    Ok(_) => Ok(Completion::Value(Some(RuntimeValue::Undefined))),
                }
            },
            Node::VariableDeclaration { declarations } => self.eval_block(declarations, depth),
            Node::VariableDeclarator { .. } => self.eval_declarator(rc, depth),
            Node::BlockStatement { body } => self.eval_block(body, depth),
            Node::ReturnStatement { argument } => {
                match self.eval_node(argument, depth) {
                    Err(e) => Err(e),
                    Ok(c) => Ok(Completion::Return(value_or_undefined(operand_of(c)))),
                }
            },
            Node::FunctionDeclaration { id, params: _, body: _ } => {
                proof {
                    if let Some(i) = id {
                        assert(opt_view(*id) == Some(node_view(**i)));
                    }
                }
                match id {
                    Some(i) => match &**i {
                        Node::Identifier(name) => {
                            proof {
                                assert(node_view(**i) == Ast::Identifier(name@));
                            }
                            self.declare_function_value(
                                name.clone(),
                                RuntimeValue::Function(share(rc)),
                            );
                        },
                        _ => {},
                    },
                    None => {},
                }
                Ok(Completion::Value(None))
            },
            Node::CallExpression { .. } => self.eval_call(rc, depth),
        }
    }

    fn eval_additive(&mut self, rc: &Rc<Node>, depth: u64) -> (r: Result<Completion, RuntimeError>)
        requires
            **rc is AdditiveExpression,
        ensures
            (result_view(r), final(self)@) == eval(Some(node_view(**rc)), old(self)@, depth as nat),
            final(self).call_limit == old(self).call_limit,
        decreases depth, *rc, 1nat,
    {
        let (operator, left, right) = match &**rc {
            Node::AdditiveExpression { operator, left, right } => (operator, left, right),
            _ => {
                proof {
                    assert(false);
                }
                return Err(RuntimeError::UnsupportedOperator);
            },
        };
        let lv = match self.eval_node(left, depth) {
            Err(e) => {
                return Err(e);
            },
            Ok(c) => operand_of(c),
        };
        let lv = match lv {
            None => {
                return Ok(Completion::Value(None));
            },
            Some(v) => v,
        };
        let rv = match self.eval_node(right, depth) {
            Err(e) => {
                return Err(e);
            },
            Ok(c) => operand_of(c),
        };
        match rv {
            None => Ok(Completion::Value(None)),
            Some(v) => apply_arith(*operator, lv, v),
        }
    }

    fn eval_assignment(&mut self, rc: &Rc<Node>, depth: u64) -> (r: Result<Completion, RuntimeError>)
        requires
            **rc is AssignmentExpression,
        ensures
            (result_view(r), final(self)@) == eval(Some(node_view(**rc)), old(self)@, depth as nat),
            final(self).call_limit == old(self).call_limit,
        decreases depth, *rc, 1nat,
    {
        let (operator, left, right) = match &**rc {
            Node::AssignmentExpression { operator, left, right } => (operator, left, right),
            _ => {
                proof {
                    assert(false);
                }
                return Err(RuntimeError::UnsupportedOperator);
            },
        };
        if *operator != '=' {
            return Err(RuntimeError::UnsupportedOperator);
        }
        let v = match self.eval_node(right, depth) {
            Err(e) => {
                return Err(e);
            },
            Ok(c) => value_or_undefined(operand_of(c)),
        };
        proof {
            if let Some(l) = left {
                assert(opt_view(*left) == Some(node_view(**l)));
            }
        }
        match left {
            Some(l) => match &**l {
                Node::Identifier(name) => {
                    proof {
                        assert(node_view(**l) == Ast::Identifier(name@));
                    }
                    let result = duplicate(&v);
                    self.assign_value(name.clone(), v);
                    Ok(Completion::Value(Some(result)))
                },
                _ => Err(RuntimeError::InvalidAssignmentTarget),
            },
            None => Err(RuntimeError::InvalidAssignmentTarget),
        }
    }

    fn eval_declarator(&mut self, rc: &Rc<Node>, depth: u64) -> (r: Result<Completion, RuntimeError>)
        requires
            **rc is VariableDeclarator,
        ensures
            (result_view(r), final(self)@) == eval(Some(node_view(**rc)), old(self)@, depth as nat),
            final(self).call_limit == old(self).call_limit,
        decreases depth, *rc, 1nat,
    {
        let (id, init) = match &**rc {
            Node::VariableDeclarator { id, init } => (id, init),
            _ => {
                proof {
                    assert(false);
                }
                return Err(RuntimeError::UnsupportedOperator);
            },
        };
        let v = match self.eval_node(init, depth) {
            Err(e) => {
                return Err(e);
            },
            Ok(c) => value_or_undefined(operand_of(c)),
        };
        proof {
            if let Some(i) = id {
                assert(opt_view(*id) == Some(node_view(**i)));
            }
        }
        match id {
            Some(i) => match &**i {
                Node::Identifier(name) => {
                    proof {
                        assert(node_view(**i) == Ast::Identifier(name@));
                    }
                    self.declare_value(name.clone(), v);
                },
                _ => {},
            },
            None => {},
        }
        Ok(Completion::Value(None))
    }

    fn eval_call(&mut self, rc: &Rc<Node>, depth: u64) -> (r: Result<Completion, RuntimeError>)
        requires
            **rc is CallExpression,
        ensures
            (result_view(r), final(self)@) == eval(Some(node_view(**rc)), old(self)@, depth as nat),
            final(self).call_limit == old(self).call_limit,
        decreases depth, *rc, 1nat,
    {
        let (callee, arguments) = match &**rc {
            Node::CallExpression { callee, arguments } => (callee, arguments),
            _ => {
                proof {
                    assert(false);
                }
                return Err(RuntimeError::UnsupportedOperator);
            },
        };
        let name = match callee {
            Some(c) => match &**c {
                Node::Identifier(name) => {
                    proof {
                        assert(opt_view(*callee) == Some(node_view(**c)));
                        assert(node_view(**c) == Ast::Identifier(name@));
                    }
                    name
                },
                _ => {
                    proof {
                        assert(opt_view(*callee) == Some(node_view(**c)));
                    }
                    return Err(RuntimeError::NotCallable);
                },
            },
            None => {
                return Err(RuntimeError::NotCallable);
            },
        };
        let f = match self.function_named(name) {
            Some(RuntimeValue::Function(f)) => f,
            _ => {
                return Err(RuntimeError::UndeclaredFunction);
            },
        };
        match &*f {
            Node::FunctionDeclaration { id: _, params, body } => {
                let vals = match self.eval_args(arguments, depth) {
                    Err(e) => {
                        return Err(e);
                    },
                    Ok(v) => v,
                };
                if depth == 0 {
                    return Err(RuntimeError::CallDepthExceeded);
                }
                let frame = bind_parameters(params, &vals);
                let no_functions: Vec<(String, RuntimeValue)> = Vec::new();
                proof {
                    assert(scope_view(no_functions@) =~= Seq::<(Seq<char>, Val)>::empty());
                }
                let saved = self.locals.take();
                let saved_functions = self.local_functions.take();
                self.locals = Some(frame);
                self.local_functions = Some(no_functions);
                let rb = self.eval_node(body, depth - 1);
                self.locals = saved;
                self.local_functions = saved_functions;
                match rb {
                    Err(e) => Err(e),
                    Ok(Completion::Return(v)) => Ok(Completion::Value(Some(v))),
                    Ok(Completion::Value(_)) => Ok(Completion::Value(Some(RuntimeValue::Undefined))),
                }
            },
            _ => Err(RuntimeError::UndeclaredFunction),
        }
    }

    fn eval_block(&mut self, items: &Vec<Option<Rc<Node>>>, depth: u64) -> (r: Result<
        Completion,
        RuntimeError,
    >)
        ensures
            (result_view(r), final(self)@) == eval_block(list_view(*items), 0, old(self)@, depth as nat),
            final(self).call_limit == old(self).call_limit,
        decreases depth, *items, 3nat,
    {
        let ghost lv = list_view(*items);
        let mut k: usize = 0;
        while k < items.len()
            invariant
                k <= items.len(),
                lv == list_view(*items),
                self.call_limit == old(self).call_limit,
                eval_block(lv, 0, old(self)@, depth as nat) == eval_block(lv, k as int, self@, depth as nat),
            decreases items.len() - k,
        {
            match self.eval_node(&items[k], depth) {
                Err(e) => {
                    return Err(e);
                },
                Ok(Completion::Return(v)) => {
                    return Ok(Completion::Return(v));
                },
                Ok(Completion::Value(_)) => {},
            }
            k = k + 1;
        }
        Ok(Completion::Value(None))
    }

    fn eval_args(&mut self, items: &Vec<Option<Rc<Node>>>, depth: u64) -> (r: Result<
        Vec<RuntimeValue>,
        RuntimeError,
    >)
        ensures
            ({
                let (s, env) = eval_args(list_view(*items), 0, old(self)@, depth as nat);
                &&& final(self)@ == env
                &&& match s {
                    Ok(vs) => r is Ok && values_view(r->Ok_0@) == vs,
                    Err(e) => r == Err::<Vec<RuntimeValue>, RuntimeError>(e),
                }
            }),
            final(self).call_limit == old(self).call_limit,
        decreases depth, *items, 3nat,
    {
        let ghost lv = list_view(*items);
        let mut vals: Vec<RuntimeValue> = Vec::new();
        let mut k: usize = 0;
        proof {
            assert(values_view(vals@) =~= Seq::<Val>::empty());
            let (s, env) = eval_args(lv, 0, self@, depth as nat);
            if let Ok(vs) = s {
                assert(Seq::<Val>::empty() + vs =~= vs);
            }
        }
        while k < items.len()
            invariant
                k <= items.len(),
                lv == list_view(*items),
                self.call_limit == old(self).call_limit,
                args_continue(
                    eval_args(lv, 0, old(self)@, depth as nat),
                    values_view(vals@),
                    eval_args(lv, k as int, self@, depth as nat),
                ),
            decreases items.len() - k,
        {
            let ghost v0 = vals@;
            let ghost env0 = self@;
            match self.eval_node(&items[k], depth) {
                Err(e) => {
                    return Err(e);
                },
                Ok(c) => {
                    let v = value_or_undefined(operand_of(c));
                    let ghost vv = v@;
                    vals.push(v);
                    proof {
                        assert(values_view(vals@) =~= values_view(v0).push(vv));
                        let (rest, _) = eval_args(lv, k + 1, self@, depth as nat);
                        if let Ok(vs) = rest {
                            assert(values_view(v0) + (seq![vv] + vs) =~= values_view(vals@) + vs);
                        }
                    }
                },
            }
            k = k + 1;
        }
        proof {
            assert(values_view(vals@) + seq![] =~= values_view(vals@));
        }
        Ok(vals)
    }
}


/// The tokens of `n0 o0 n1 o1 ... nk`: numbers at even positions, operators at odd ones.
pub open spec fn arith_tokens(nums: Seq<u64>, ops: Seq<char>) -> Seq<Tok> {
    Seq::new(2 * ops.len() + 1, |i: int| arith_token(nums, ops, i))
}

pub open spec fn arith_token(nums: Seq<u64>, ops: Seq<char>, i: int) -> Tok {
    if i % 2 == 0 {
        Tok::Number(nums[i / 2])
    } else {
        Tok::Punctuator(ops[i / 2])
    }
}

/// `nums[k] ops[k] (nums[k+1] ops[k+1] (...))`: the operators applied from the right.
pub open spec fn right_assoc(nums: Seq<u64>, ops: Seq<char>, k: int) -> u64
    decreases ops.len() - k,
{
    if k < 0 || k >= ops.len() {
        nums[k]
    } else if ops[k] == '+' {
        wrapping_add(nums[k], right_assoc(nums, ops, k + 1))
    } else {
        wrapping_sub(nums[k], right_assoc(nums, ops, k + 1))
    }
}

/// The tree of `nums[k] ops[k] ...`, nested to the right.
pub open spec fn right_chain(nums: Seq<u64>, ops: Seq<char>, k: int) -> Ast
    decreases ops.len() - k,
{
    if k < 0 || k >= ops.len() {
        Ast::NumericLiteral(nums[k])
    } else {
        Ast::AdditiveExpression {
            operator: ops[k],
            left: Some(Box::new(Ast::NumericLiteral(nums[k]))),
            right: Some(Box::new(right_chain(nums, ops, k + 1))),
        }
    }
}

pub open spec fn is_additive_ops(ops: Seq<char>) -> bool {
    forall|i: int| 0 <= i < ops.len() ==> ops[i] == '+' || ops[i] == '-'
}

proof fn lemma_parse_chain(nums: Seq<u64>, ops: Seq<char>, k: int)
    requires
        nums.len() == ops.len() + 1,
        is_additive_ops(ops),
        0 <= k <= ops.len(),
    ensures
        p_assignment(TokenStream { toks: arith_tokens(nums, ops), err: None }, (2 * k) as nat)
            == Parsed::Ok((Some(right_chain(nums, ops, k)), (2 * (ops.len() - k) + 1) as nat)),
    decreases ops.len() - k,
{
    let ts = TokenStream { toks: arith_tokens(nums, ops), err: None };
    let i = (2 * k) as nat;
    assert((2 * k) % 2 == 0 && (2 * k) / 2 == k) by (nonlinear_arith);
    assert((2 * k + 1) % 2 == 1 && (2 * k + 1) / 2 == k) by (nonlinear_arith);
    assert(ts.toks.len() == 2 * ops.len() + 1);
    assert(arith_token(nums, ops, 2 * k) == Tok::Number(nums[k]));
    assert(ts.toks[2 * k] == Tok::Number(nums[k]));
    assert(p_primary(ts, i) == Parsed::Ok((Some(Ast::NumericLiteral(nums[k])), 1)));
    if k < ops.len() {
        assert(arith_token(nums, ops, 2 * k + 1) == Tok::Punctuator(ops[k]));
        assert(ts.toks[2 * k + 1] == Tok::Punctuator(ops[k]));
        assert(at(ts, i + 1) == Ok::<Option<Tok>, SyntaxError>(Some(Tok::Punctuator(ops[k]))));
        assert(p_member(ts, i) == Parsed::Ok((Some(Ast::NumericLiteral(nums[k])), 1)));
        assert(p_lhs(ts, i) == Parsed::Ok((Some(Ast::NumericLiteral(nums[k])), 1)));
        lemma_parse_chain(nums, ops, k + 1);
        assert((i + 1 + 1) as nat == (2 * (k + 1)) as nat);
        let n = (2 * (ops.len() - k) + 1) as nat;
        assert(at(ts, i + n) == Ok::<Option<Tok>, SyntaxError>(None));
        assert(p_additive(ts, i) == Parsed::Ok((Some(right_chain(nums, ops, k)), n)));
    } else {
        assert(at(ts, i + 1) == Ok::<Option<Tok>, SyntaxError>(None));
        assert(p_member(ts, i) == Parsed::Ok((Some(Ast::NumericLiteral(nums[k])), 1)));
        assert(p_lhs(ts, i) == Parsed::Ok((Some(Ast::NumericLiteral(nums[k])), 1)));
        assert(p_additive(ts, i) == Parsed::Ok((Some(Ast::NumericLiteral(nums[k])), 1)));
    }
}

proof fn lemma_eval_chain(nums: Seq<u64>, ops: Seq<char>, k: int, env: Env, depth: nat)
    requires
        nums.len() == ops.len() + 1,
        is_additive_ops(ops),
        0 <= k <= ops.len(),
    ensures
        eval(Some(right_chain(nums, ops, k)), env, depth) == (
            Ok::<Outcome, RuntimeError>(
                Outcome::Value(Some(Val::Number(right_assoc(nums, ops, k)))),
            ),
            env,
        ),
    decreases ops.len() - k,
{
    if k < ops.len() {
        lemma_eval_chain(nums, ops, k + 1, env, depth);
        assert(eval(Some(Ast::NumericLiteral(nums[k])), env, depth) == (
            Ok::<Outcome, RuntimeError>(Outcome::Value(Some(Val::Number(nums[k])))),
            env,
        ));
    }
}

/// `+` and `-` group to the right: a text made of numbers joined by `+` and `-` parses as
/// one expression statement whose operators nest to the right, and evaluating it gives the
/// operators applied from the right, with wrapping arithmetic (`1 - 2 - 3` is `1 - (2 - 3)`).
pub proof fn lemma_arithmetic_is_right_associative(
    nums: Seq<u64>,
    ops: Seq<char>,
    env: Env,
    depth: nat,
)
    requires
        nums.len() == ops.len() + 1,
        is_additive_ops(ops),
    ensures
        ({
            let ts = TokenStream { toks: arith_tokens(nums, ops), err: None };
            let stmt = Ast::ExpressionStatement(Some(Box::new(right_chain(nums, ops, 0))));
            &&& p_program(ts, 0) == Ok::<Seq<Ast>, SyntaxError>(seq![stmt])
            &&& eval(Some(stmt), env, depth) == (
                Ok::<Outcome, RuntimeError>(
                    Outcome::Value(Some(Val::Number(right_assoc(nums, ops, 0)))),
                ),
                env,
            )
        }),
{
    let ts = TokenStream { toks: arith_tokens(nums, ops), err: None };
    let stmt = Ast::ExpressionStatement(Some(Box::new(right_chain(nums, ops, 0))));
    lemma_parse_chain(nums, ops, 0);
    lemma_eval_chain(nums, ops, 0, env, depth);
    let n = (2 * ops.len() + 1) as nat;
    assert(0int % 2 == 0 && 0int / 2 == 0);
    assert(ts.toks.len() == n);
    assert(arith_token(nums, ops, 0) == Tok::Number(nums[0]));
    assert(ts.toks[0] == Tok::Number(nums[0]));
    assert(at(ts, n) == Ok::<Option<Tok>, SyntaxError>(None));
    assert(p_statement_core(ts, 0) == Parsed::Ok((Some(stmt), n)));
    assert(p_statement(ts, 0) == Parsed::Ok((Some(stmt), n)));
    assert(p_source_element(ts, 0) == Parsed::Ok((Some(stmt), n)));
    assert(p_source_element(ts, n) == Parsed::Ok((None, 0)));
    assert(p_program(ts, n) == Ok::<Seq<Ast>, SyntaxError>(seq![]));
    assert(seq![stmt] + Seq::<Ast>::empty() =~= seq![stmt]);
}

/// The text `words[k] ops[k] words[k+1] ...`, with no spaces.
pub open spec fn arith_text(words: Seq<Seq<char>>, ops: Seq<char>, k: int) -> Seq<char>
    decreases ops.len() - k,
{
    if k < 0 || k >= ops.len() {
        words[k]
    } else {
        words[k] + seq![ops[k]] + arith_text(words, ops, k + 1)
    }
}

/// A decimal literal whose value fits in a `u64`.
pub open spec fn is_number_word(w: Seq<char>) -> bool {
    w.len() > 0 && all_digits(w) && digits_value(w, 0) <= u64::MAX
}

/// The values of decimal literals.
pub open spec fn word_values(words: Seq<Seq<char>>) -> Seq<u64> {
    Seq::new(words.len(), |k: int| digits_value(words[k], 0) as u64)
}

proof fn lemma_lex_arith_text(words: Seq<Seq<char>>, ops: Seq<char>, k: int)
    requires
        words.len() == ops.len() + 1,
        forall|j: int| 0 <= j < words.len() ==> is_number_word(#[trigger] words[j]),
        is_additive_ops(ops),
        0 <= k <= ops.len(),
    ensures
        lex_from(arith_text(words, ops, k), 0) == (TokenStream {
            toks: arith_tokens(word_values(words), ops).subrange(2 * k, 2 * ops.len() + 1 as int),
            err: None,
        }),
    decreases ops.len() - k,
{
    let nums = word_values(words);
    let all = arith_tokens(nums, ops);
    let w = words[k];
    let t = arith_text(words, ops, k);
    assert(is_number_word(w));
    assert((2 * k) % 2 == 0 && (2 * k) / 2 == k) by (nonlinear_arith);
    assert((2 * k + 1) % 2 == 1 && (2 * k + 1) / 2 == k) by (nonlinear_arith);
    assert(all[2 * k] == Tok::Number(nums[k]));
    assert(t[0] == w[0]);
    assert(is_digit(w[0]));
    assert(t.subrange(0, w.len() as int) =~= w);
    assert(skip_space(t, 0) == 0);
    if k < ops.len() {
        let op = ops[k];
        let pre = w + seq![op];
        let rest = arith_text(words, ops, k + 1);
        assert(t == pre + rest);
        assert(t[w.len() as int] == op);
        lemma_scan_digits(t, 0, w.len() as int, 0);
        assert(next_token(t, 0) == Ok::<Option<(Tok, int)>, LexError>(
            Some((Tok::Number(nums[k]), w.len() as int)),
        ));
        assert(skip_space(t, w.len() as int) == w.len());
        assert(next_token(t, w.len() as int) == Ok::<Option<(Tok, int)>, LexError>(
            Some((Tok::Punctuator(op), w.len() + 1int)),
        ));
        lemma_shift_lex_from(pre, rest, 0);
        lemma_lex_arith_text(words, ops, k + 1);
        assert(all[2 * k + 1] == Tok::Punctuator(op));
        let tail = lex_from(t, w.len() + 1int);
        assert(lex_from(t, w.len() as int).toks == seq![Tok::Punctuator(op)] + tail.toks);
        assert(lex_from(t, 0).toks =~= all.subrange(2 * k, 2 * ops.len() + 1 as int));
    } else {
        lemma_scan_digits(t, 0, w.len() as int, 0);
        assert(next_token(t, 0) == Ok::<Option<(Tok, int)>, LexError>(
            Some((Tok::Number(nums[k]), w.len() as int)),
        ));
        assert(next_token(t, w.len() as int) == Ok::<Option<(Tok, int)>, LexError>(None));
        assert(lex_from(t, w.len() as int).toks =~= Seq::<Tok>::empty());
        assert(lex_from(t, 0).toks =~= all.subrange(2 * k, 2 * ops.len() + 1 as int));
    }
}

/// `+` and `-` group to the right, stated on source text: decimal literals joined by `+` and
/// `-` parse as one expression statement whose operators nest to the right, and evaluating
/// it gives the operators applied from the right, with wrapping arithmetic.
pub proof fn lemma_arithmetic_text_is_right_associative(
    words: Seq<Seq<char>>,
    ops: Seq<char>,
    env: Env,
    depth: nat,
)
    requires
        words.len() == ops.len() + 1,
        forall|j: int| 0 <= j < words.len() ==> is_number_word(#[trigger] words[j]),
        is_additive_ops(ops),
    ensures
        ({
            let nums = word_values(words);
            let stmt = Ast::ExpressionStatement(Some(Box::new(right_chain(nums, ops, 0))));
            &&& parse_source(arith_text(words, ops, 0)) == Ok::<Seq<Ast>, SyntaxError>(seq![stmt])
            &&& eval(Some(stmt), env, depth) == (
                Ok::<Outcome, RuntimeError>(
                    Outcome::Value(Some(Val::Number(right_assoc(nums, ops, 0)))),
                ),
                env,
            )
        }),
{
    let nums = word_values(words);
    lemma_lex_arith_text(words, ops, 0);
    let all = arith_tokens(nums, ops);
    assert(all.subrange(0, 2 * ops.len() + 1 as int) =~= all);
    lemma_arithmetic_is_right_associative(nums, ops, env, depth);
}

} // verus!
