//! The recursive-descent parser: builds a `Program` from the lexer's tokens with one token
//! of lookahead.
//!
//! Each production is stated as a spec function over the whole token stream and a position
//! in it. It gives the node it builds (absent where nothing usable stood there) and how many
//! tokens it consumed, or the fatal error that ends the parse.
use crate::ast::{body_view, boxed, list_view, node_view, opt_view, Ast, Node, Program};
use crate::token::{
    is_keyword, keywords_known, kw_function, kw_return, kw_var, JsLexer, LexError, Tok, Token,
    TokenStream,
};
use std::rc::Rc;
use vstd::prelude::*;

verus! {

/// Why a parse was abandoned. All of these are fatal to the whole parse.
#[derive(Debug, Clone, Copy, PartialEq, Eq, Structural)]
pub enum SyntaxError {
    /// The lexer met text that forms no token.
    Lex(LexError),
    /// A function declaration whose name is not followed by `(`.
    MissingParameterList,
    /// A function declaration whose parameters are not followed by `{`.
    MissingFunctionBody,
    /// A function body that the input ends in before its `}`.
    UnterminatedFunctionBody,
}

/// What a production gives: its node and the number of tokens it consumed.
pub type Parsed = Result<(Option<Ast>, nat), SyntaxError>;

/// What a list production gives: its items and the number of tokens it consumed.
pub type ParsedList = Result<(Seq<Option<Ast>>, nat), SyntaxError>;

/// The token at position `i`: `None` past the last one, or the lexer's error if lexing
/// stopped there.
pub open spec fn at(ts: TokenStream, i: nat) -> Result<Option<Tok>, SyntaxError> {
    if i < ts.toks.len() {
        Ok(Some(ts.toks[i as int]))
    } else {
        match ts.err {
            Some(e) => Err(SyntaxError::Lex(e)),
            None => Ok(None),
        }
    }
}

/// How many tokens are left from position `i`.
pub open spec fn left(ts: TokenStream, i: nat) -> nat {
    if i <= ts.toks.len() {
        (ts.toks.len() - i) as nat
    } else {
        0
    }
}

pub open spec fn is_punct(t: Option<Tok>, c: char) -> bool {
    t == Some(Tok::Punctuator(c))
}

pub open spec fn is_kw(t: Option<Tok>, w: Seq<char>) -> bool {
    t == Some(Tok::Keyword(w))
}

pub open spec fn ident_of(t: Tok) -> Option<Ast> {
    match t {
        Tok::Identifier(n) => Some(Ast::Identifier(n)),
        _ => None,
    }
}

/// `identifier`: one token, which gives a node only if it is an identifier.
pub open spec fn p_identifier(ts: TokenStream, i: nat) -> Parsed {
    match at(ts, i) {
        Err(e) => Err(e),
        Ok(None) => Ok((None, 0)),
        Ok(Some(t)) => Ok((ident_of(t), 1)),
    }
}

/// `primaryExpression := identifier | stringLiteral | number`: one token.
pub open spec fn p_primary(ts: TokenStream, i: nat) -> Parsed {
    match at(ts, i) {
        Err(e) => Err(e),
        Ok(None) => Ok((None, 0)),
        Ok(Some(t)) => Ok(
            (
                match t {
                    Tok::Identifier(n) => Some(Ast::Identifier(n)),
                    Tok::StringLiteral(s) => Some(Ast::StringLiteral(s)),
                    Tok::Number(v) => Some(Ast::NumericLiteral(v)),
                    _ => None,
                },
                1,
            ),
        ),
    }
}

/// `memberExpression := primaryExpression ('.' identifier)?`
pub open spec fn p_member(ts: TokenStream, i: nat) -> Parsed {
    match p_primary(ts, i) {
        Err(e) => Err(e),
        Ok((e, n)) => match at(ts, i + n) {
            Err(x) => Err(x),
            Ok(t) => if is_punct(t, '.') {
                match p_identifier(ts, i + n + 1) {
                    Err(x) => Err(x),
                    Ok((p, m)) => Ok(
                        (
                            Some(Ast::MemberExpression { object: boxed(e), property: boxed(p) }),
                            n + 1 + m,
                        ),
                    ),
                }
            } else {
                Ok((e, n))
            },
        },
    }
}

/// `leftHandSideExpression := memberExpression ('(' arguments)?`
pub open spec fn p_lhs(ts: TokenStream, i: nat) -> Parsed
    decreases left(ts, i), 1nat,
{
    match p_member(ts, i) {
        Err(e) => Err(e),
        Ok((e, n)) => match at(ts, i + n) {
            Err(x) => Err(x),
            Ok(t) => if is_punct(t, '(') {
                match p_arguments(ts, i + n + 1) {
                    Err(x) => Err(x),
                    Ok((args, m)) => Ok(
                        (
                            Some(Ast::CallExpression { callee: boxed(e), arguments: args }),
                            n + 1 + m,
                        ),
                    ),
                }
            } else {
                Ok((e, n))
            },
        },
    }
}

/// `arguments := (assignmentExpression (',' assignmentExpression)*)? ')'`. Commas are
/// skipped wherever they stand; any other token starts an argument; the end of the input
/// also ends the list.
pub open spec fn p_arguments(ts: TokenStream, i: nat) -> ParsedList
    decreases left(ts, i), 4nat,
{
    match at(ts, i) {
        Err(e) => Err(e),
        Ok(None) => Ok((seq![], 0)),
        Ok(t) => if is_punct(t, ')') {
            Ok((seq![], 1))
        } else if is_punct(t, ',') {
            match p_arguments(ts, i + 1) {
                Err(e) => Err(e),
                Ok((rest, m)) => Ok((rest, m + 1)),
            }
        } else {
            match p_assignment(ts, i) {
                Err(e) => Err(e),
                Ok((e, n)) => if n > 0 {
                    match p_arguments(ts, i + n) {
                        Err(x) => Err(x),
                        Ok((rest, m)) => Ok((seq![e] + rest, n + m)),
                    }
                } else {
                    Ok((seq![e], n))
                },
            }
        },
    }
}

/// `additiveExpression := leftHandSideExpression (('+'|'-') assignmentExpression)?`.
/// The right operand is a whole assignment expression, so `a - b - c` is `a - (b - c)`.
pub open spec fn p_additive(ts: TokenStream, i: nat) -> Parsed
    decreases left(ts, i), 2nat,
{
    match p_lhs(ts, i) {
        Err(e) => Err(e),
        Ok((l, n)) => match at(ts, i + n) {
            Err(x) => Err(x),
            Ok(t) => if is_punct(t, '+') || is_punct(t, '-') {
                match p_assignment(ts, i + n + 1) {
                    Err(x) => Err(x),
                    Ok((r, m)) => Ok(
                        (
                            Some(
                                Ast::AdditiveExpression {
                                    operator: t->Some_0->Punctuator_0,
                                    left: boxed(l),
                                    right: boxed(r),
                                },
                            ),
                            n + 1 + m,
                        ),
                    ),
                }
            } else {
                Ok((l, n))
            },
        },
    }
}

/// `assignmentExpression := additiveExpression ('=' assignmentExpression)?`
pub open spec fn p_assignment(ts: TokenStream, i: nat) -> Parsed
    decreases left(ts, i), 3nat,
{
    match p_additive(ts, i) {
        Err(e) => Err(e),
        Ok((l, n)) => match at(ts, i + n) {
            Err(x) => Err(x),
            Ok(t) => if is_punct(t, '=') {
                match p_assignment(ts, i + n + 1) {
                    Err(x) => Err(x),
                    Ok((r, m)) => Ok(
                        (
                            Some(
                                Ast::AssignmentExpression {
                                    operator: '=',
                                    left: boxed(l),
                                    right: boxed(r),
                                },
                            ),
                            n + 1 + m,
                        ),
                    ),
                }
            } else {
                Ok((l, n))
            },
        },
    }
}

/// `initializer := '=' assignmentExpression`: present only where the next token is `=`;
/// otherwise nothing is consumed.
pub open spec fn p_initializer(ts: TokenStream, i: nat) -> Parsed {
    match at(ts, i) {
        Err(e) => Err(e),
        Ok(None) => Ok((None, 0)),
        Ok(t) => if is_punct(t, '=') {
            match p_assignment(ts, i + 1) {
                Err(e) => Err(e),
                Ok((a, m)) => Ok((a, m + 1)),
            }
        } else {
            Ok((None, 0))
        },
    }
}

/// `variableDeclaration := identifier initializer?`: one declarator.
pub open spec fn p_variable_declaration(ts: TokenStream, i: nat) -> Parsed {
    match p_identifier(ts, i) {
        Err(e) => Err(e),
        Ok((id, n)) => match p_initializer(ts, i + n) {
            Err(e) => Err(e),
            Ok((init, m)) => Ok(
                (
                    Some(
                        Ast::VariableDeclaration {
                            declarations: seq![
                                Some(Ast::VariableDeclarator { id: boxed(id), init: boxed(init) }),
                            ],
                        },
                    ),
                    n + m,
                ),
            ),
        },
    }
}

/// The statement without its optional `;`.
pub open spec fn p_statement_core(ts: TokenStream, i: nat) -> Parsed {
    match at(ts, i) {
        Err(e) => Err(e),
        Ok(None) => Ok((None, 0)),
        Ok(Some(t)) => match t {
            Tok::Keyword(w) => if w == kw_var() {
                match p_variable_declaration(ts, i + 1) {
                    Err(e) => Err(e),
                    Ok((d, m)) => Ok((d, m + 1)),
                }
            } else if w == kw_return() {
                match p_assignment(ts, i + 1) {
                    Err(e) => Err(e),
                    Ok((a, m)) => Ok((Some(Ast::ReturnStatement { argument: boxed(a) }), m + 1)),
                }
            } else {
                Ok((None, 0))
            },
            _ => match p_assignment(ts, i) {
                Err(e) => Err(e),
                Ok((a, m)) => Ok((Some(Ast::ExpressionStatement(boxed(a))), m)),
            },
        },
    }
}

/// `statement := 'var' variableDeclaration | 'return' assignmentExpression |
/// expressionStatement`, then an optional `;`.
pub open spec fn p_statement(ts: TokenStream, i: nat) -> Parsed {
    match p_statement_core(ts, i) {
        Err(e) => Err(e),
        Ok((s, n)) => match at(ts, i + n) {
            Err(x) => Err(x),
            Ok(t) => if is_punct(t, ';') {
                Ok((s, n + 1))
            } else {
                Ok((s, n))
            },
        },
    }
}

/// `paramList`: the `(` that must open it, then identifiers up to `)`, commas skipped.
pub open spec fn p_parameter_list(ts: TokenStream, i: nat) -> ParsedList {
    match at(ts, i) {
        Err(e) => Err(e),
        Ok(t) => if is_punct(t, '(') {
            match p_params_rest(ts, i + 1) {
                Err(e) => Err(e),
                Ok((ps, m)) => Ok((ps, m + 1)),
            }
        } else {
            Err(SyntaxError::MissingParameterList)
        },
    }
}

/// The parameters after `(`: each token other than `,` and `)` is one parameter.
pub open spec fn p_params_rest(ts: TokenStream, i: nat) -> ParsedList
    decreases left(ts, i),
{
    match at(ts, i) {
        Err(e) => Err(e),
        Ok(None) => Ok((seq![], 0)),
        Ok(Some(t)) => if t == Tok::Punctuator(')') {
            Ok((seq![], 1))
        } else if t == Tok::Punctuator(',') {
            match p_params_rest(ts, i + 1) {
                Err(e) => Err(e),
                Ok((ps, m)) => Ok((ps, m + 1)),
            }
        } else {
            match p_params_rest(ts, i + 1) {
                Err(e) => Err(e),
                Ok((ps, m)) => Ok((seq![ident_of(t)] + ps, m + 1)),
            }
        },
    }
}

/// `sourceElement := functionDeclaration | statement`
pub open spec fn p_source_element(ts: TokenStream, i: nat) -> Parsed
    decreases left(ts, i), 5nat,
{
    match at(ts, i) {
        Err(e) => Err(e),
        Ok(None) => Ok((None, 0)),
        Ok(t) => if is_kw(t, kw_function()) {
            match p_function_declaration(ts, i + 1) {
                Err(e) => Err(e),
                Ok((f, m)) => Ok((f, m + 1)),
            }
        } else {
            p_statement(ts, i)
        },
    }
}

/// `functionDeclaration := 'function' identifier '(' paramList ')' '{' sourceElement* '}'`,
/// from the token after `function`.
pub open spec fn p_function_declaration(ts: TokenStream, i: nat) -> Parsed
    decreases left(ts, i), 3nat,
{
    match p_identifier(ts, i) {
        Err(e) => Err(e),
        Ok((id, n)) => match p_parameter_list(ts, i + n) {
            Err(e) => Err(e),
            Ok((ps, m)) => match p_function_body(ts, i + n + m) {
                Err(e) => Err(e),
                Ok((b, k)) => Ok(
                    (
                        Some(
                            Ast::FunctionDeclaration { id: boxed(id), params: ps, body: boxed(b) },
                        ),
                        n + m + k,
                    ),
                ),
            },
        },
    }
}

/// The body of a function: `{`, source elements, `}`, as a block statement.
pub open spec fn p_function_body(ts: TokenStream, i: nat) -> Parsed
    decreases left(ts, i), 2nat,
{
    match at(ts, i) {
        Err(e) => Err(e),
        Ok(t) => if is_punct(t, '{') {
            match p_body_items(ts, i + 1) {
                Err(e) => Err(e),
                Ok((items, m)) => Ok((Some(Ast::BlockStatement { body: items }), m + 1)),
            }
        } else {
            Err(SyntaxError::MissingFunctionBody)
        },
    }
}

/// The source elements of a body up to and including its `}`. A body that cannot reach its
/// `}` (the input ends, or an element makes no progress) is unterminated.
pub open spec fn p_body_items(ts: TokenStream, i: nat) -> ParsedList
    decreases left(ts, i), 6nat,
{
    match at(ts, i) {
        Err(e) => Err(e),
        Ok(None) => Err(SyntaxError::UnterminatedFunctionBody),
        Ok(t) => if is_punct(t, '}') {
            Ok((seq![], 1))
        } else {
            match p_source_element(ts, i) {
                Err(e) => Err(e),
                Ok((e, n)) => if n > 0 {
                    match p_body_items(ts, i + n) {
                        Err(x) => Err(x),
                        Ok((rest, m)) => Ok((seq![e] + rest, n + m)),
                    }
                } else {
                    Err(SyntaxError::UnterminatedFunctionBody)
                },
            }
        },
    }
}

/// Where parsing the top level from position `i` stops: after the first source element that
/// gives no node.
pub open spec fn program_end(ts: TokenStream, i: nat) -> nat
    decreases left(ts, i),
{
    match p_source_element(ts, i) {
        Ok((Some(_), n)) => if n > 0 && i < ts.toks.len() {
            program_end(ts, i + n)
        } else {
            i + n
        },
        Ok((None, n)) => i + n,
        Err(_) => i,
    }
}

/// The top-level nodes from position `i`: source elements until one gives no node.
pub open spec fn p_program(ts: TokenStream, i: nat) -> Result<Seq<Ast>, SyntaxError>
    decreases left(ts, i),
{
    match p_source_element(ts, i) {
        Err(e) => Err(e),
        Ok((None, _)) => Ok(seq![]),
        Ok((Some(a), n)) => if n > 0 && i < ts.toks.len() {
            match p_program(ts, i + n) {
                Err(e) => Err(e),
                Ok(rest) => Ok(seq![a] + rest),
            }
        } else {
            Ok(seq![a])
        },
    }
}

/// The parse of a whole text.
pub open spec fn parse_source(s: Seq<char>) -> Result<Seq<Ast>, SyntaxError> {
    p_program(crate::token::lex(s), 0)
}

/// Whether an exec parse result matches a production's spec, the cursor having moved from
/// `p0` to `p1`.
pub open spec fn node_parsed(
    r: Result<Option<Rc<Node>>, SyntaxError>,
    s: Parsed,
    p0: nat,
    p1: nat,
) -> bool {
    match s {
        Ok((a, n)) => r is Ok && opt_view(r->Ok_0) == a && p1 == p0 + n,
        Err(e) => r == Err::<Option<Rc<Node>>, SyntaxError>(e),
    }
}

pub open spec fn list_parsed(
    r: Result<Vec<Option<Rc<Node>>>, SyntaxError>,
    s: ParsedList,
    p0: nat,
    p1: nat,
) -> bool {
    match s {
        Ok((a, n)) => r is Ok && list_view(r->Ok_0) == a && p1 == p0 + n,
        Err(e) => r == Err::<Vec<Option<Rc<Node>>>, SyntaxError>(e),
    }
}

/// The tokens of `ts` from position `k` on.
pub open spec fn suffix(ts: TokenStream, k: nat) -> TokenStream {
    TokenStream { toks: ts.toks.subrange(k as int, ts.toks.len() as int), err: ts.err }
}

/// What the parser needs to know of the next token.
#[derive(PartialEq, Eq, Structural)]
enum Look {
    End,
    Punctuator(char),
    Function,
    Var,
    Return,
    OtherKeyword,
    Other,
}

spec fn look_of(t: Option<Tok>) -> Look {
    match t {
        None => Look::End,
        Some(Tok::Punctuator(c)) => Look::Punctuator(c),
        Some(Tok::Keyword(w)) => if w == kw_function() {
            Look::Function
        } else if w == kw_var() {
            Look::Var
        } else if w == kw_return() {
            Look::Return
        } else {
            Look::OtherKeyword
        },
        Some(_) => Look::Other,
    }
}

spec fn look_at(ts: TokenStream, i: nat) -> Result<Look, SyntaxError> {
    match at(ts, i) {
        Err(e) => Err(e),
        Ok(t) => Ok(look_of(t)),
    }
}

/// Whether `k` holds the characters of `w`.
fn text_is(k: &String, w: &str) -> (r: bool)
    ensures
        r == (k@ == w@),
{
    let s = w.to_string();
    *k == s
}

/// An expression whose primary part consumes a token consumes at least that token.
proof fn lemma_assignment_progress(ts: TokenStream, i: nat)
    requires
        i < ts.toks.len(),
    ensures
        (p_assignment(ts, i) matches Ok((_, n)) ==> n >= 1),
{
    assert(p_primary(ts, i) matches Ok((_, n)) ==> n == 1);
    assert(p_member(ts, i) matches Ok((_, n)) ==> n >= 1);
    assert(p_lhs(ts, i) matches Ok((_, n)) ==> n >= 1);
    assert(p_additive(ts, i) matches Ok((_, n)) ==> n >= 1);
}

/// A source element that starts with a token other than an unknown keyword consumes it;
/// one that gives a node always consumed something.
proof fn lemma_source_element_progress(ts: TokenStream, i: nat)
    ensures
        i < ts.toks.len() && look_of(Some(ts.toks[i as int])) != Look::OtherKeyword ==> (
        p_source_element(ts, i) matches Ok((_, n)) ==> n >= 1),
        (p_source_element(ts, i) matches Ok((Some(_), n)) ==> n >= 1 && i < ts.toks.len()),
{
    if i < ts.toks.len() {
        lemma_assignment_progress(ts, i);
    }
}


/// A list production that has read `done` in `used` tokens and has `rest` still to come
/// gives `whole`.
pub open spec fn list_continues(
    whole: ParsedList,
    done: Seq<Option<Ast>>,
    rest: ParsedList,
    used: nat,
) -> bool {
    match rest {
        Ok((items, m)) => whole == Ok::<(Seq<Option<Ast>>, nat), SyntaxError>(
            (done + items, used + m),
        ),
        Err(e) => whole == Err::<(Seq<Option<Ast>>, nat), SyntaxError>(e),
    }
}

pub open spec fn program_continues(
    whole: Result<Seq<Ast>, SyntaxError>,
    done: Seq<Ast>,
    rest: Result<Seq<Ast>, SyntaxError>,
) -> bool {
    match rest {
        Ok(items) => whole == Ok::<Seq<Ast>, SyntaxError>(done + items),
        Err(e) => whole == Err::<Seq<Ast>, SyntaxError>(e),
    }
}

proof fn lemma_list_view_push(v: Vec<Option<Rc<Node>>>, w: Vec<Option<Rc<Node>>>, x: Option<Rc<Node>>)
    requires
        w@ == v@.push(x),
    ensures
        list_view(w) == list_view(v).push(opt_view(x)),
{
    assert(list_view(w) =~= list_view(v).push(opt_view(x)));
}

proof fn lemma_list_continues_step(
    whole: ParsedList,
    done: Seq<Option<Ast>>,
    e: Option<Ast>,
    rest: ParsedList,
    used: nat,
    n: nat,
)
    requires
        list_continues(
            whole,
            done,
            match rest {
                Ok((items, m)) => Ok((seq![e] + items, n + m)),
                Err(x) => Err(x),
            },
            used,
        ),
    ensures
        list_continues(whole, done.push(e), rest, used + n),
{
    if let Ok((items, m)) = rest {
        assert(done + (seq![e] + items) =~= done.push(e) + items);
    }
}

/// A source element that starts with a keyword of the language, or with any other token but
/// a keyword, gives a node.
proof fn lemma_known_token_gives_node(ts: TokenStream, i: nat)
    requires
        i < ts.toks.len(),
        keywords_known(ts.toks),
    ensures
        p_source_element(ts, i) matches Ok((a, _)) ==> a is Some,
{
    let t = ts.toks[i as int];
    if t is Keyword {
        assert(is_keyword(t->Keyword_0));
    }
}

/// With keywords of the language only, the top level is parsed to the end of the tokens.
proof fn lemma_program_end(ts: TokenStream, i: nat)
    requires
        keywords_known(ts.toks),
        p_program(ts, i) is Ok,
    ensures
        program_end(ts, i) >= ts.toks.len(),
    decreases left(ts, i),
{
    lemma_source_element_progress(ts, i);
    match p_source_element(ts, i) {
        Ok((Some(_), n)) => {
            lemma_program_end(ts, i + n);
        },
        Ok((None, n)) => {
            if i < ts.toks.len() {
                lemma_known_token_gives_node(ts, i);
            }
        },
        Err(_) => {},
    }
}

/// A parser over the tokens of one lexer, with one token of lookahead.
pub struct JsParser {
    t: JsLexer,
    peeked: Option<Option<Token>>,
    stream: Ghost<TokenStream>,
    pos: Ghost<nat>,
}

impl JsParser {
    /// All tokens that this parser reads, from its start.
    pub closed spec fn stream(&self) -> TokenStream {
        self.stream@
    }

    /// How many tokens it has consumed.
    pub closed spec fn pos(&self) -> nat {
        self.pos@
    }

    pub closed spec fn wf(&self) -> bool {
        &&& self.t.wf()
        &&& keywords_known(self.stream@.toks)
        &&& self.pos@ <= self.stream@.toks.len()
        &&& match self.peeked {
            None => self.t.rest() == suffix(self.stream@, self.pos@),
            Some(None) => self.pos@ == self.stream@.toks.len() && self.stream@.err is None,
            Some(Some(tok)) => {
                &&& self.pos@ < self.stream@.toks.len()
                &&& tok@ == self.stream@.toks[self.pos@ as int]
                &&& self.t.rest() == suffix(self.stream@, self.pos@ + 1)
            },
        }
    }

    pub fn new(t: JsLexer) -> (r: Self)
        requires
            t.wf(),
        ensures
            r.wf(),
            r.stream() == t.rest(),
            r.pos() == 0,
    {
        let ghost ts = t.rest();
        proof {
            t.lemma_rest_keywords_known();
        }
        let r = Self { t, peeked: None, stream: Ghost(ts), pos: Ghost(0) };
        proof {
            assert(suffix(ts, 0).toks =~= ts.toks);
        }
        r
    }

    /// Looks at the next token without consuming it.
    fn peek(&mut self) -> (r: Result<Look, SyntaxError>)
        requires
            old(self).wf(),
        ensures
            final(self).wf(),
            final(self).stream() == old(self).stream(),
            final(self).pos() == old(self).pos(),
            r == look_at(old(self).stream(), old(self).pos()),
            r is Ok ==> final(self).peeked is Some,
    {
        if self.peeked.is_none() {
            let ghost ts = self.stream@;
            let ghost p = self.pos@;
            match self.t.next() {
                Ok(x) => {
                    self.peeked = Some(x);
                    proof {
                        if x is Some {
                            assert(suffix(ts, p).toks.drop_first() =~= suffix(ts, p + 1).toks);
                        }
                    }
                },
                Err(e) => {
                    return Err(SyntaxError::Lex(e));
                },
            }
        }
        match &self.peeked {
            Some(Some(Token::Punctuator(c))) => Ok(Look::Punctuator(*c)),
            Some(Some(Token::Keyword(k))) => {
                proof {
                    reveal_strlit("function");
                    reveal_strlit("var");
                    reveal_strlit("return");
                    assert("function"@ =~= kw_function());
                    assert("var"@ =~= kw_var());
                    assert("return"@ =~= kw_return());
                }
                if text_is(k, "function") {
                    Ok(Look::Function)
                } else if text_is(k, "var") {
                    Ok(Look::Var)
                } else if text_is(k, "return") {
                    Ok(Look::Return)
                } else {
                    Ok(Look::OtherKeyword)
                }
            },
            Some(Some(_)) => Ok(Look::Other),
            _ => Ok(Look::End),
        }
    }

    /// Consumes the token that was looked at.
    fn take(&mut self) -> (r: Token)
        requires
            old(self).wf(),
            old(self).peeked matches Some(Some(_)),
        ensures
            final(self).wf(),
            final(self).stream() == old(self).stream(),
            final(self).pos() == old(self).pos() + 1,
            r@ == old(self).stream().toks[old(self).pos() as int],
    {
        let p = self.peeked.take();
        self.pos = Ghost(self.pos@ + 1);
        match p {
            Some(Some(t)) => t,
            _ => {
                proof {
                    assert(false);
                }
                Token::Number(0)
            },
        }
    }

    /// Consumes the next token, if there is one.
    fn advance(&mut self) -> (r: Result<Option<Token>, SyntaxError>)
        requires
            old(self).wf(),
        ensures
            final(self).wf(),
            final(self).stream() == old(self).stream(),
            match at(old(self).stream(), old(self).pos()) {
                Err(e) => r == Err::<Option<Token>, SyntaxError>(e),
                Ok(None) => r matches Ok(None) && final(self).pos() == old(self).pos(),
                Ok(Some(t)) => r matches Ok(Some(x)) && x@ == t && final(self).pos() == old(
                    self,
                ).pos() + 1,
            },
    {
        let l = self.peek()?;
        match l {
            Look::End => Ok(None),
            _ => Ok(Some(self.take())),
        }
    }

    /// Parses the whole token stream into a program. Parsing stops at the first top-level
    /// construct that gives no node; as every keyword starts a construct, that is at the end
    /// of the tokens, which are then all consumed.
    pub fn parse_ast(&mut self) -> (r: Result<Program, SyntaxError>)
        requires
            old(self).wf(),
        ensures
            final(self).wf(),
            final(self).stream() == old(self).stream(),
            match p_program(old(self).stream(), old(self).pos()) {
                Ok(b) => {
                    &&& r matches Ok(p) && p@ == b
                    &&& final(self).pos() == program_end(old(self).stream(), old(self).pos())
                    &&& final(self).pos() == final(self).stream().toks.len()
                },
                Err(e) => r == Err::<Program, SyntaxError>(e),
            },
    {
        let ghost ts = self.stream@;
        let ghost start = self.pos@;
        let mut program = Program::new();
        let mut body: Vec<Rc<Node>> = Vec::new();
        proof {
            assert(body_view(body@) + seq![] =~= body_view(body@));
            assert(seq![] + seq![] =~= Seq::<Ast>::empty());
        }
        loop
            invariant
                self.wf(),
                self.stream@ == ts,
                ts == old(self).stream(),
                start <= self.pos@,
                start == old(self).pos(),
                program_continues(p_program(ts, start), body_view(body@), p_program(ts, self.pos@)),
                p_program(ts, start) is Ok ==> program_end(ts, start) == program_end(ts, self.pos@),
            decreases left(ts, self.pos@),
        {
            let ghost p = self.pos@;
            proof {
                lemma_source_element_progress(ts, p);
            }
            let node = self.source_element()?;
            match node {
                Some(n) => {
                    let ghost b0 = body@;
                    body.push(n);
                    proof {
                        assert(body_view(body@) =~= body_view(b0).push(node_view(*n)));
                        if let Ok(items) = p_program(ts, self.pos@) {
                            assert(body_view(b0) + (seq![node_view(*n)] + items) =~= body_view(
                                body@,
                            ) + items);
                        }
                    }
                },
                None => {
                    proof {
                        assert(body_view(body@) + seq![] =~= body_view(body@));
                        if p_program(ts, start) is Ok {
                            lemma_program_end(ts, start);
                        }
                    }
                    program.set_body(body);
                    return Ok(program);
                },
            }
        }
    }

    fn source_element(&mut self) -> (r: Result<Option<Rc<Node>>, SyntaxError>)
        requires
            old(self).wf(),
        ensures
            final(self).wf(),
            final(self).stream() == old(self).stream(),
            node_parsed(
                r,
                p_source_element(old(self).stream(), old(self).pos()),
                old(self).pos(),
                final(self).pos(),
            ),
        decreases left(old(self).stream(), old(self).pos()), 5nat,
    {
        match self.peek()? {
            Look::End => Ok(None),
            Look::Function => {
                self.take();
                self.function_declaration()
            },
            _ => self.statement(),
        }
    }

    fn statement(&mut self) -> (r: Result<Option<Rc<Node>>, SyntaxError>)
        requires
            old(self).wf(),
        ensures
            final(self).wf(),
            final(self).stream() == old(self).stream(),
            node_parsed(
                r,
                p_statement(old(self).stream(), old(self).pos()),
                old(self).pos(),
                final(self).pos(),
            ),
    {
        let node = match self.peek()? {
            Look::End => None,
            Look::Var => {
                self.take();
                self.variable_declaration()?
            },
            Look::Return => {
                self.take();
                let a = self.assignment_expression()?;
                Node::new_return_statement(a)
            },
            Look::Function => None,
            Look::OtherKeyword => None,
            _ => {
                let a = self.assignment_expression()?;
                Node::new_expression_statement(a)
            },
        };
        match self.peek()? {
            Look::Punctuator(';') => {
                self.take();
            },
            _ => {},
        }
        Ok(node)
    }

    fn assignment_expression(&mut self) -> (r: Result<Option<Rc<Node>>, SyntaxError>)
        requires
            old(self).wf(),
        ensures
            final(self).wf(),
            final(self).stream() == old(self).stream(),
            node_parsed(
                r,
                p_assignment(old(self).stream(), old(self).pos()),
                old(self).pos(),
                final(self).pos(),
            ),
        decreases left(old(self).stream(), old(self).pos()), 3nat,
    {
        let expr = self.additive_expression()?;
        match self.peek()? {
            Look::Punctuator('=') => {
                self.take();
                let right = self.assignment_expression()?;
                Ok(Node::new_assignment_expression('=', expr, right))
            },
            _ => Ok(expr),
        }
    }

    fn additive_expression(&mut self) -> (r: Result<Option<Rc<Node>>, SyntaxError>)
        requires
            old(self).wf(),
        ensures
            final(self).wf(),
            final(self).stream() == old(self).stream(),
            node_parsed(
                r,
                p_additive(old(self).stream(), old(self).pos()),
                old(self).pos(),
                final(self).pos(),
            ),
        decreases left(old(self).stream(), old(self).pos()), 2nat,
    {
        let left = self.left_hand_side_expression()?;
        match self.peek()? {
            Look::Punctuator(c) => {
                if c == '+' || c == '-' {
                    self.take();
                    let right = self.assignment_expression()?;
                    Ok(Node::new_addirive_expression(c, left, right))
                } else {
                    Ok(left)
                }
            },
            _ => Ok(left),
        }
    }

    fn left_hand_side_expression(&mut self) -> (r: Result<Option<Rc<Node>>, SyntaxError>)
        requires
            old(self).wf(),
        ensures
            final(self).wf(),
            final(self).stream() == old(self).stream(),
            node_parsed(
                r,
                p_lhs(old(self).stream(), old(self).pos()),
                old(self).pos(),
                final(self).pos(),
            ),
        decreases left(old(self).stream(), old(self).pos()), 1nat,
    {
        let expr = self.member_expression()?;
        match self.peek()? {
            Look::Punctuator('(') => {
                self.take();
                let args = self.arguments()?;
                Ok(Node::new_call_expression(expr, args))
            },
            _ => Ok(expr),
        }
    }

    fn arguments(&mut self) -> (r: Result<Vec<Option<Rc<Node>>>, SyntaxError>)
        requires
            old(self).wf(),
        ensures
            final(self).wf(),
            final(self).stream() == old(self).stream(),
            list_parsed(
                r,
                p_arguments(old(self).stream(), old(self).pos()),
                old(self).pos(),
                final(self).pos(),
            ),
        decreases left(old(self).stream(), old(self).pos()), 4nat,
    {
        let ghost ts = self.stream@;
        let ghost start = self.pos@;
        let mut arguments: Vec<Option<Rc<Node>>> = Vec::new();
        proof {
            assert(list_view(arguments) =~= Seq::<Option<Ast>>::empty());
            if let Ok((items, m)) = p_arguments(ts, start) {
                assert(Seq::<Option<Ast>>::empty() + items =~= items);
            }
        }
        loop
            invariant
                self.wf(),
                self.stream@ == ts,
                ts == old(self).stream(),
                start <= self.pos@,
                start == old(self).pos(),
                list_continues(
                    p_arguments(ts, start),
                    list_view(arguments),
                    p_arguments(ts, self.pos@),
                    (self.pos@ - start) as nat,
                ),
            decreases left(ts, self.pos@),
        {
            let ghost p = self.pos@;
            match self.peek()? {
                Look::End => {
                    proof {
                        assert(list_view(arguments) + seq![] =~= list_view(arguments));
                    }
                    return Ok(arguments);
                },
                Look::Punctuator(')') => {
                    self.take();
                    proof {
                        assert(list_view(arguments) + seq![] =~= list_view(arguments));
                    }
                    return Ok(arguments);
                },
                Look::Punctuator(',') => {
                    self.take();
                },
                _ => {
                    proof {
                        lemma_assignment_progress(ts, p);
                    }
                    let e = self.assignment_expression()?;
                    let ghost a0 = arguments;
                    arguments.push(e);
                    proof {
                        lemma_list_view_push(a0, arguments, e);
                        lemma_list_continues_step(
                            p_arguments(ts, start),
                            list_view(a0),
                            opt_view(e),
                            p_arguments(ts, self.pos@),
                            (p - start) as nat,
                            (self.pos@ - p) as nat,
                        );
                    }
                },
            }
        }
    }

    fn member_expression(&mut self) -> (r: Result<Option<Rc<Node>>, SyntaxError>)
        requires
            old(self).wf(),
        ensures
            final(self).wf(),
            final(self).stream() == old(self).stream(),
            node_parsed(
                r,
                p_member(old(self).stream(), old(self).pos()),
                old(self).pos(),
                final(self).pos(),
            ),
    {
        let expr = self.primary_expression()?;
        match self.peek()? {
            Look::Punctuator('.') => {
                self.take();
                let p = self.identifier()?;
                Ok(Node::new_member_expression(expr, p))
            },
            _ => Ok(expr),
        }
    }

    fn primary_expression(&mut self) -> (r: Result<Option<Rc<Node>>, SyntaxError>)
        requires
            old(self).wf(),
        ensures
            final(self).wf(),
            final(self).stream() == old(self).stream(),
            node_parsed(
                r,
                p_primary(old(self).stream(), old(self).pos()),
                old(self).pos(),
                final(self).pos(),
            ),
    {
        let t = match self.advance()? {
            Some(t) => t,
            None => return Ok(None),
        };
        match t {
            Token::Identifier(v) => Ok(Node::new_identifier(v)),
            Token::StringLiteral(v) => Ok(Node::new_string_literal(v)),
            Token::Number(v) => Ok(Node::new_numeric_literal(v)),
            _ => Ok(None),
        }
    }

    fn variable_declaration(&mut self) -> (r: Result<Option<Rc<Node>>, SyntaxError>)
        requires
            old(self).wf(),
        ensures
            final(self).wf(),
            final(self).stream() == old(self).stream(),
            node_parsed(
                r,
                p_variable_declaration(old(self).stream(), old(self).pos()),
                old(self).pos(),
                final(self).pos(),
            ),
    {
        let ident = self.identifier()?;
        let init = self.initializer()?;
        let declarator = Node::new_variable_declarator(ident, init);
        let mut declarations: Vec<Option<Rc<Node>>> = Vec::new();
        declarations.push(declarator);
        proof {
            assert(list_view(declarations) =~= seq![opt_view(declarator)]);
        }
        Ok(Node::new_variable_declaration(declarations))
    }

    fn identifier(&mut self) -> (r: Result<Option<Rc<Node>>, SyntaxError>)
        requires
            old(self).wf(),
        ensures
            final(self).wf(),
            final(self).stream() == old(self).stream(),
            node_parsed(
                r,
                p_identifier(old(self).stream(), old(self).pos()),
                old(self).pos(),
                final(self).pos(),
            ),
    {
        let t = match self.advance()? {
            Some(t) => t,
            None => return Ok(None),
        };
        match t {
            Token::Identifier(name) => Ok(Node::new_identifier(name)),
            _ => Ok(None),
        }
    }

    fn initializer(&mut self) -> (r: Result<Option<Rc<Node>>, SyntaxError>)
        requires
            old(self).wf(),
        ensures
            final(self).wf(),
            final(self).stream() == old(self).stream(),
            node_parsed(
                r,
                p_initializer(old(self).stream(), old(self).pos()),
                old(self).pos(),
                final(self).pos(),
            ),
    {
        match self.peek()? {
            Look::Punctuator('=') => {
                self.take();
                self.assignment_expression()
            },
            _ => Ok(None),
        }
    }

    fn function_declaration(&mut self) -> (r: Result<Option<Rc<Node>>, SyntaxError>)
        requires
            old(self).wf(),
        ensures
            final(self).wf(),
            final(self).stream() == old(self).stream(),
            node_parsed(
                r,
                p_function_declaration(old(self).stream(), old(self).pos()),
                old(self).pos(),
                final(self).pos(),
            ),
        decreases left(old(self).stream(), old(self).pos()), 3nat,
    {
        let id = self.identifier()?;
        let params = self.parameter_list()?;
        let body = self.function_body()?;
        Ok(Node::new_function_declaration(id, params, body))
    }

    fn parameter_list(&mut self) -> (r: Result<Vec<Option<Rc<Node>>>, SyntaxError>)
        requires
            old(self).wf(),
        ensures
            final(self).wf(),
            final(self).stream() == old(self).stream(),
            list_parsed(
                r,
                p_parameter_list(old(self).stream(), old(self).pos()),
                old(self).pos(),
                final(self).pos(),
            ),
    {
        match self.peek()? {
            Look::Punctuator('(') => {
                self.take();
            },
            _ => {
                return Err(SyntaxError::MissingParameterList);
            },
        }
        let ghost ts = self.stream@;
        let ghost start = self.pos@;
        let mut params: Vec<Option<Rc<Node>>> = Vec::new();
        proof {
            assert(list_view(params) =~= Seq::<Option<Ast>>::empty());
            if let Ok((items, m)) = p_params_rest(ts, start) {
                assert(Seq::<Option<Ast>>::empty() + items =~= items);
            }
        }
        loop
            invariant
                self.wf(),
                self.stream@ == ts,
                ts == old(self).stream(),
                start <= self.pos@,
                start == old(self).pos() + 1,
                p_parameter_list(ts, old(self).pos()) == match p_params_rest(ts, start) {
                    Ok((ps, m)) => Ok((ps, m + 1)),
                    Err(e) => Err(e),
                },
                list_continues(
                    p_params_rest(ts, start),
                    list_view(params),
                    p_params_rest(ts, self.pos@),
                    (self.pos@ - start) as nat,
                ),
            decreases left(ts, self.pos@),
        {
            let ghost p = self.pos@;
            match self.peek()? {
                Look::End => {
                    proof {
                        assert(list_view(params) + seq![] =~= list_view(params));
                    }
                    return Ok(params);
                },
                Look::Punctuator(')') => {
                    self.take();
                    proof {
                        assert(list_view(params) + seq![] =~= list_view(params));
                    }
                    return Ok(params);
                },
                Look::Punctuator(',') => {
                    self.take();
                },
                _ => {
                    let e = self.identifier()?;
                    let ghost a0 = params;
                    params.push(e);
                    proof {
                        lemma_list_view_push(a0, params, e);
                        lemma_list_continues_step(
                            p_params_rest(ts, start),
                            list_view(a0),
                            opt_view(e),
                            p_params_rest(ts, self.pos@),
                            (p - start) as nat,
                            1,
                        );
                    }
                },
            }
        }
    }

    fn function_body(&mut self) -> (r: Result<Option<Rc<Node>>, SyntaxError>)
        requires
            old(self).wf(),
        ensures
            final(self).wf(),
            final(self).stream() == old(self).stream(),
            node_parsed(
                r,
                p_function_body(old(self).stream(), old(self).pos()),
                old(self).pos(),
                final(self).pos(),
            ),
        decreases left(old(self).stream(), old(self).pos()), 2nat,
    {
        match self.peek()? {
            Look::Punctuator('{') => {
                self.take();
            },
            _ => {
                return Err(SyntaxError::MissingFunctionBody);
            },
        }
        let ghost ts = self.stream@;
        let ghost start = self.pos@;
        let mut body: Vec<Option<Rc<Node>>> = Vec::new();
        proof {
            assert(list_view(body) =~= Seq::<Option<Ast>>::empty());
            if let Ok((items, m)) = p_body_items(ts, start) {
                assert(Seq::<Option<Ast>>::empty() + items =~= items);
            }
        }
        loop
            invariant
                self.wf(),
                self.stream@ == ts,
                ts == old(self).stream(),
                start <= self.pos@,
                start == old(self).pos() + 1,
                p_function_body(ts, old(self).pos()) == match p_body_items(ts, start) {
                    Ok((items, m)) => Ok((Some(Ast::BlockStatement { body: items }), m + 1)),
                    Err(e) => Err(e),
                },
                list_continues(
                    p_body_items(ts, start),
                    list_view(body),
                    p_body_items(ts, self.pos@),
                    (self.pos@ - start) as nat,
                ),
            decreases left(ts, self.pos@),
        {
            let ghost p = self.pos@;
            match self.peek()? {
                Look::End => {
                    return Err(SyntaxError::UnterminatedFunctionBody);
                },
                Look::Punctuator('}') => {
                    self.take();
                    proof {
                        assert(list_view(body) + seq![] =~= list_view(body));
                    }
                    return Ok(Node::new_block_statement(body));
                },
                Look::OtherKeyword => {
                    proof {
                        assert(p_statement_core(ts, p) == Parsed::Ok((None, 0)));
                        assert(p_statement(ts, p) == Parsed::Ok((None, 0)));
                        assert(p_source_element(ts, p) == Parsed::Ok((None, 0)));
                    }
                    return Err(SyntaxError::UnterminatedFunctionBody);
                },
                _ => {
                    proof {
                        lemma_source_element_progress(ts, p);
                    }
                    let e = self.source_element()?;
                    let ghost a0 = body;
                    body.push(e);
                    proof {
                        lemma_list_view_push(a0, body, e);
                        lemma_list_continues_step(
                            p_body_items(ts, start),
                            list_view(a0),
                            opt_view(e),
                            p_body_items(ts, self.pos@),
                            (p - start) as nat,
                            (self.pos@ - p) as nat,
                        );
                    }
                },
            }
        }
    }
}

/// Parsing depends on the text alone: two parses of equal texts give programs that are equal
/// node for node, or the same error.
pub proof fn lemma_parsing_is_deterministic(a: Seq<char>, b: Seq<char>)
    requires
        a == b,
    ensures
        parse_source(a) == parse_source(b),
{
}

} // verus!
