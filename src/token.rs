//! The lexer: turns script text into a lazily produced stream of tokens.
use vstd::prelude::*;

verus! {

/// A lexical unit of the scripting language.
#[derive(Debug, Clone, PartialEq, Eq)]
pub enum Token {
    Punctuator(char),
    Number(u64),
    Identifier(String),
    StringLiteral(String),
    Keyword(String),
}

/// The mathematical value of a token: strings are seen as their characters.
pub enum Tok {
    Punctuator(char),
    Number(u64),
    Identifier(Seq<char>),
    StringLiteral(Seq<char>),
    Keyword(Seq<char>),
}

impl View for Token {
    type V = Tok;

    open spec fn view(&self) -> Tok {
        match self {
            Token::Punctuator(c) => Tok::Punctuator(*c),
            Token::Number(n) => Tok::Number(*n),
            Token::Identifier(s) => Tok::Identifier(s@),
            Token::StringLiteral(s) => Tok::StringLiteral(s@),
            Token::Keyword(s) => Tok::Keyword(s@),
        }
    }
}

/// Why lexing stopped before the end of the input. Both are fatal.
#[derive(Debug, Clone, Copy, PartialEq, Eq, Structural)]
pub enum LexError {
    /// A character that starts no token.
    UnexpectedCharacter(char),
    /// A quote whose closing quote never comes.
    UnterminatedString,
}

/// All tokens of a text, in order, and whether lexing ended in an error after them.
pub struct TokenStream {
    pub toks: Seq<Tok>,
    pub err: Option<LexError>,
}

pub open spec fn is_space(c: char) -> bool {
    c == ' ' || c == '\n' || c == '\t' || c == '\r'
}

pub open spec fn is_punctuator(c: char) -> bool {
    c == '+' || c == '-' || c == ';' || c == '=' || c == '(' || c == ')' || c == '{' || c == '}'
        || c == ',' || c == '.'
}

pub open spec fn is_digit(c: char) -> bool {
    '0' <= c && c <= '9'
}

pub open spec fn digit_value(c: char) -> int {
    c as int - '0' as int
}

pub open spec fn is_ident_start(c: char) -> bool {
    ('a' <= c && c <= 'z') || ('A' <= c && c <= 'Z') || c == '_'
}

pub open spec fn is_ident_part(c: char) -> bool {
    is_ident_start(c) || is_digit(c)
}

pub open spec fn is_quote(c: char) -> bool {
    c == '"' || c == '\''
}

pub open spec fn kw_var() -> Seq<char> {
    seq!['v', 'a', 'r']
}

pub open spec fn kw_return() -> Seq<char> {
    seq!['r', 'e', 't', 'u', 'r', 'n']
}

pub open spec fn kw_function() -> Seq<char> {
    seq!['f', 'u', 'n', 'c', 't', 'i', 'o', 'n']
}

pub open spec fn is_keyword(w: Seq<char>) -> bool {
    w == kw_var() || w == kw_return() || w == kw_function()
}

/// The first position at or after `pos` that holds no whitespace.
pub open spec fn skip_space(s: Seq<char>, pos: int) -> int
    decreases s.len() - pos,
{
    if 0 <= pos < s.len() && is_space(s[pos]) {
        skip_space(s, pos + 1)
    } else {
        pos
    }
}

/// Reads decimal digits from `pos` onto `acc`, stopping before a non-digit or before a digit
/// that would take the value past `u64::MAX`. Gives the value and the position after it.
pub open spec fn scan_number(s: Seq<char>, pos: int, acc: u64) -> (u64, int)
    decreases s.len() - pos,
{
    if 0 <= pos < s.len() && is_digit(s[pos]) && acc * 10 + digit_value(s[pos]) <= u64::MAX {
        scan_number(s, pos + 1, (acc * 10 + digit_value(s[pos])) as u64)
    } else {
        (acc, pos)
    }
}

/// The end of the run of identifier characters that starts at `pos`.
pub open spec fn ident_end(s: Seq<char>, pos: int) -> int
    decreases s.len() - pos,
{
    if 0 <= pos < s.len() && is_ident_part(s[pos]) {
        ident_end(s, pos + 1)
    } else {
        pos
    }
}

/// The first position at or after `pos` that holds `q`, or the length when none does.
pub open spec fn quote_end(s: Seq<char>, pos: int, q: char) -> int
    decreases s.len() - pos,
{
    if pos < 0 || pos >= s.len() {
        s.len() as int
    } else if s[pos] == q {
        pos
    } else {
        quote_end(s, pos + 1, q)
    }
}

/// The token that starts at or after `pos` (after whitespace), with the position after it;
/// `None` at the end of the input.
pub open spec fn next_token(s: Seq<char>, pos: int) -> Result<Option<(Tok, int)>, LexError> {
    let p = skip_space(s, pos);
    if p < 0 || p >= s.len() {
        Ok(None)
    } else {
        let c = s[p];
        if is_punctuator(c) {
            Ok(Some((Tok::Punctuator(c), p + 1)))
        } else if is_digit(c) {
            let (v, e) = scan_number(s, p, 0);
            Ok(Some((Tok::Number(v), e)))
        } else if is_ident_start(c) {
            let e = ident_end(s, p);
            let w = s.subrange(p, e);
            Ok(Some((if is_keyword(w) { Tok::Keyword(w) } else { Tok::Identifier(w) }, e)))
        } else if is_quote(c) {
            let e = quote_end(s, p + 1, c);
            if e < s.len() {
                Ok(Some((Tok::StringLiteral(s.subrange(p + 1, e)), e + 1)))
            } else {
                Err(LexError::UnterminatedString)
            }
        } else {
            Err(LexError::UnexpectedCharacter(c))
        }
    }
}

pub proof fn lemma_skip_space(s: Seq<char>, pos: int)
    requires
        0 <= pos,
    ensures
        pos <= skip_space(s, pos),
        pos <= s.len() ==> skip_space(s, pos) <= s.len(),
    decreases s.len() - pos,
{
    if 0 <= pos < s.len() && is_space(s[pos]) {
        lemma_skip_space(s, pos + 1);
    }
}

pub proof fn lemma_scan_number(s: Seq<char>, pos: int, acc: u64)
    requires
        0 <= pos,
    ensures
        pos <= scan_number(s, pos, acc).1,
        pos <= s.len() ==> scan_number(s, pos, acc).1 <= s.len(),
    decreases s.len() - pos,
{
    if 0 <= pos < s.len() && is_digit(s[pos]) && acc * 10 + digit_value(s[pos]) <= u64::MAX {
        lemma_scan_number(s, pos + 1, (acc * 10 + digit_value(s[pos])) as u64);
    }
}

pub proof fn lemma_ident_end(s: Seq<char>, pos: int)
    requires
        0 <= pos,
    ensures
        pos <= ident_end(s, pos),
        pos <= s.len() ==> ident_end(s, pos) <= s.len(),
    decreases s.len() - pos,
{
    if 0 <= pos < s.len() && is_ident_part(s[pos]) {
        lemma_ident_end(s, pos + 1);
    }
}

pub proof fn lemma_quote_end(s: Seq<char>, pos: int, q: char)
    requires
        0 <= pos,
    ensures
        pos <= s.len() ==> pos <= quote_end(s, pos, q) <= s.len(),
    decreases s.len() - pos,
{
    if pos < s.len() && s[pos] != q {
        lemma_quote_end(s, pos + 1, q);
    }
}

/// Each token takes at least one character, and none beyond the input.
pub proof fn lemma_next_token_progress(s: Seq<char>, pos: int)
    requires
        0 <= pos <= s.len(),
    ensures
        next_token(s, pos) matches Ok(Some((_, e))) ==> pos < e <= s.len(),
{
    lemma_skip_space(s, pos);
    let p = skip_space(s, pos);
    if 0 <= p < s.len() {
        let c = s[p];
        if is_digit(c) {
            assert(0 * 10 + digit_value(c) <= u64::MAX);
            lemma_scan_number(s, p + 1, (0 * 10 + digit_value(c)) as u64);
        }
        if is_ident_start(c) {
            assert(is_ident_part(c));
            lemma_ident_end(s, p + 1);
        }
        lemma_quote_end(s, p + 1, c);
    }
}

/// The tokens of `s` from `pos` on.
pub open spec fn lex_from(s: Seq<char>, pos: int) -> TokenStream
    decreases s.len() - pos,
{
    if pos < 0 || pos > s.len() {
        TokenStream { toks: seq![], err: None }
    } else {
        match next_token(s, pos) {
            Ok(Some((t, e))) => {
                proof {
                    lemma_next_token_progress(s, pos);
                }
                let rest = lex_from(s, e);
                TokenStream { toks: seq![t] + rest.toks, err: rest.err }
            },
            Ok(None) => TokenStream { toks: seq![], err: None },
            Err(e) => TokenStream { toks: seq![], err: Some(e) },
        }
    }
}

/// Every keyword token is one of the language's keywords.
pub open spec fn keywords_known(toks: Seq<Tok>) -> bool {
    forall|i: int| 0 <= i < toks.len() && #[trigger] toks[i] is Keyword ==> is_keyword(toks[i]->Keyword_0)
}

/// The lexer makes keyword tokens of keywords only.
pub proof fn lemma_lexed_keywords_known(s: Seq<char>, pos: int)
    ensures
        keywords_known(lex_from(s, pos).toks),
    decreases s.len() - pos,
{
    if 0 <= pos <= s.len() {
        if let Ok(Some((t, e))) = next_token(s, pos) {
            lemma_next_token_progress(s, pos);
            lemma_lexed_keywords_known(s, e);
            let rest = lex_from(s, e).toks;
            assert forall|i: int|
                0 <= i < lex_from(s, pos).toks.len() && #[trigger] lex_from(s, pos).toks[i] is Keyword
                implies is_keyword(lex_from(s, pos).toks[i]->Keyword_0) by {
                if i > 0 {
                    assert(lex_from(s, pos).toks[i] == rest[i - 1]);
                }
            }
        }
    }
}

/// The tokens of a whole text.
pub open spec fn lex(s: Seq<char>) -> TokenStream {
    lex_from(s, 0)
}

/// The characters of a text, in order.
fn chars_of(s: &str) -> (r: Vec<char>)
    ensures
        r@ == s@,
{
    let mut v: Vec<char> = Vec::new();
    for c in it: s.chars()
        invariant
            v.len() == it.index(),
            forall|i: int| 0 <= i < v.len() ==> v@[i] == it.seq()[i],
    {
        v.push(c);
    }
    proof {
        assert(v@ =~= s@);
    }
    v
}

/// Relies on collecting the `char`s of a `Vec` into a `String`: the text of those characters.
#[verifier::external_body]
fn string_of(v: &Vec<char>) -> (r: String)
    ensures
        r@ == v@,
{
    v.iter().collect()
}

/// The text of the characters `v[from..to]`.
fn text_between(v: &Vec<char>, from: usize, to: usize) -> (r: String)
    requires
        from <= to <= v.len(),
    ensures
        r@ == v@.subrange(from as int, to as int),
{
    let mut w: Vec<char> = Vec::new();
    let mut i = from;
    while i < to
        invariant
            from <= i <= to <= v.len(),
            w@ == v@.subrange(from as int, i as int),
        decreases to - i,
    {
        w.push(v[i]);
        i = i + 1;
        proof {
            assert(w@ =~= v@.subrange(from as int, i as int));
        }
    }
    string_of(&w)
}

fn space_char(c: char) -> (r: bool)
    ensures
        r == is_space(c),
{
    c == ' ' || c == '\n' || c == '\t' || c == '\r'
}

fn ident_char(c: char) -> (r: bool)
    ensures
        r == is_ident_part(c),
{
    ('a' <= c && c <= 'z') || ('A' <= c && c <= 'Z') || c == '_' || ('0' <= c && c <= '9')
}

/// A cursor over script text that hands out one token at a time.
pub struct JsLexer {
    pos: usize,
    input: Vec<char>,
}

impl JsLexer {
    /// The tokens not yet handed out.
    pub closed spec fn rest(&self) -> TokenStream {
        lex_from(self.input@, self.pos as int)
    }

    pub closed spec fn wf(&self) -> bool {
        self.pos <= self.input.len()
    }

    /// The tokens still to come name only keywords of the language.
    pub proof fn lemma_rest_keywords_known(&self)
        ensures
            keywords_known(self.rest().toks),
    {
        lemma_lexed_keywords_known(self.input@, self.pos as int);
    }

    pub fn new(js: String) -> (r: Self)
        ensures
            r.wf(),
            r.rest() == lex(js@),
    {
        Self { pos: 0, input: chars_of(js.as_str()) }
    }

    /// Reads the number that starts at the cursor, stopping before a digit that would
    /// overflow.
    fn consume_number(&mut self) -> (r: u64)
        requires
            old(self).wf(),
        ensures
            final(self).wf(),
            final(self).input == old(self).input,
            (r, final(self).pos as int) == scan_number(old(self).input@, old(self).pos as int, 0),
    {
        let mut num: u64 = 0;
        while self.pos < self.input.len()
            invariant
                self.wf(),
                self.input == old(self).input,
                scan_number(self.input@, self.pos as int, num) == scan_number(
                    old(self).input@,
                    old(self).pos as int,
                    0,
                ),
            ensures
                self.wf(),
                self.input == old(self).input,
                scan_number(self.input@, self.pos as int, num) == (num, self.pos as int),
                scan_number(self.input@, self.pos as int, num) == scan_number(
                    old(self).input@,
                    old(self).pos as int,
                    0,
                ),
            decreases self.input.len() - self.pos,
        {
            let c = self.input[self.pos];
            if !('0' <= c && c <= '9') {
                break;
            }
            let d = (c as u32 - '0' as u32) as u64;
            let next = match num.checked_mul(10) {
                Some(m) => m.checked_add(d),
                None => None,
            };
            match next {
                Some(v) => {
                    num = v;
                    self.pos = self.pos + 1;
                },
                None => {
                    break;
                },
            }
        }
        num
    }

    fn skip_space(&mut self)
        requires
            old(self).wf(),
        ensures
            final(self).wf(),
            final(self).input == old(self).input,
            final(self).pos as int == skip_space(old(self).input@, old(self).pos as int),
    {
        while self.pos < self.input.len() && space_char(self.input[self.pos])
            invariant
                self.wf(),
                self.input == old(self).input,
                skip_space(self.input@, self.pos as int) == skip_space(
                    old(self).input@,
                    old(self).pos as int,
                ),
            decreases self.input.len() - self.pos,
        {
            self.pos = self.pos + 1;
        }
    }

    fn ident_end(&self) -> (r: usize)
        requires
            self.wf(),
        ensures
            r as int == ident_end(self.input@, self.pos as int),
            self.pos <= r <= self.input.len(),
    {
        let mut e = self.pos;
        while e < self.input.len() && ident_char(self.input[e])
            invariant
                self.pos <= e <= self.input.len(),
                ident_end(self.input@, e as int) == ident_end(self.input@, self.pos as int),
            decreases self.input.len() - e,
        {
            e = e + 1;
        }
        e
    }

    fn quote_end(&self, from: usize, q: char) -> (r: usize)
        requires
            from <= self.input.len(),
        ensures
            r as int == quote_end(self.input@, from as int, q),
            from <= r <= self.input.len(),
    {
        let mut e = from;
        while e < self.input.len() && self.input[e] != q
            invariant
                from <= e <= self.input.len(),
                quote_end(self.input@, e as int, q) == quote_end(self.input@, from as int, q),
            decreases self.input.len() - e,
        {
            e = e + 1;
        }
        e
    }

    /// Hands out the next token. At the end of the input it gives `Ok(None)`; on a
    /// character that starts no token it gives the error and stays where it is.
    pub fn next(&mut self) -> (r: Result<Option<Token>, LexError>)
        requires
            old(self).wf(),
        ensures
            final(self).wf(),
            match r {
                Ok(Some(t)) => {
                    &&& old(self).rest().toks.len() > 0
                    &&& t@ == old(self).rest().toks[0]
                    &&& final(self).rest().toks == old(self).rest().toks.drop_first()
                    &&& final(self).rest().err == old(self).rest().err
                },
                Ok(None) => {
                    &&& old(self).rest().toks.len() == 0
                    &&& old(self).rest().err is None
                    &&& final(self).rest() == old(self).rest()
                },
                Err(e) => {
                    &&& old(self).rest().toks.len() == 0
                    &&& old(self).rest().err == Some(e)
                    &&& *final(self) == *old(self)
                },
            },
    {
        let ghost s = self.input@;
        let ghost start = self.pos as int;
        let start_pos = self.pos;
        proof {
            lemma_next_token_progress(s, start);
        }
        self.skip_space();
        if self.pos >= self.input.len() {
            return Ok(None);
        }
        let p = self.pos;
        let c = self.input[p];
        let token = if c == '+' || c == '-' || c == ';' || c == '=' || c == '(' || c == ')' || c
            == '{' || c == '}' || c == ',' || c == '.' {
            self.pos = p + 1;
            Token::Punctuator(c)
        } else if '0' <= c && c <= '9' {
            Token::Number(self.consume_number())
        } else if ('a' <= c && c <= 'z') || ('A' <= c && c <= 'Z') || c == '_' {
            let e = self.ident_end();
            let w = text_between(&self.input, p, e);
            self.pos = e;
            if is_keyword_text(&self.input, p, e) {
                Token::Keyword(w)
            } else {
                Token::Identifier(w)
            }
        } else if c == '"' || c == '\'' {
            let e = self.quote_end(p + 1, c);
            if e >= self.input.len() {
                self.pos = start_pos;
                return Err(LexError::UnterminatedString);
            }
            let w = text_between(&self.input, p + 1, e);
            self.pos = e + 1;
            Token::StringLiteral(w)
        } else {
            self.pos = start_pos;
            return Err(LexError::UnexpectedCharacter(c));
        };
        proof {
            assert(self.rest().toks =~= old(self).rest().toks.drop_first());
        }
        Ok(Some(token))
    }
}

/// Whether the characters `v[from..to]` spell one of the keywords.
fn is_keyword_text(v: &Vec<char>, from: usize, to: usize) -> (r: bool)
    requires
        from <= to <= v.len(),
    ensures
        r == is_keyword(v@.subrange(from as int, to as int)),
{
    let ghost w = v@.subrange(from as int, to as int);
    let n = to - from;
    let r = if n == 3 {
        v[from] == 'v' && v[from + 1] == 'a' && v[from + 2] == 'r'
    } else if n == 6 {
        v[from] == 'r' && v[from + 1] == 'e' && v[from + 2] == 't' && v[from + 3] == 'u' && v[from
            + 4] == 'r' && v[from + 5] == 'n'
    } else if n == 8 {
        v[from] == 'f' && v[from + 1] == 'u' && v[from + 2] == 'n' && v[from + 3] == 'c' && v[from
            + 4] == 't' && v[from + 5] == 'i' && v[from + 6] == 'o' && v[from + 7] == 'n'
    } else {
        false
    };
    proof {
        if r {
            if n == 3 {
                assert(w =~= kw_var());
            } else if n == 6 {
                assert(w =~= kw_return());
            } else {
                assert(w =~= kw_function());
            }
        } else {
            assert(w.len() == n);
            assert forall|k: int| 0 <= k < n implies w[k] == v@[from + k] by {}
            if w == kw_var() {
                assert(w[0] == 'v' && w[1] == 'a' && w[2] == 'r');
                assert(false);
            }
            if w == kw_return() {
                assert(w[0] == 'r' && w[1] == 'e' && w[2] == 't' && w[3] == 'u' && w[4] == 'r'
                    && w[5] == 'n');
                assert(false);
            }
            if w == kw_function() {
                assert(w[0] == 'f' && w[1] == 'u' && w[2] == 'n' && w[3] == 'c' && w[4] == 't'
                    && w[5] == 'i' && w[6] == 'o' && w[7] == 'n');
                assert(false);
            }
        }
    }
    r
}

/// Lexing holds no state beyond its cursor: equal texts give equal token streams, so
/// lexing the same text twice hands out the same tokens.
pub proof fn lemma_lexing_is_deterministic(a: Seq<char>, b: Seq<char>)
    requires
        a == b,
    ensures
        lex(a) == lex(b),
{
}

/// Skipping whitespace does not look behind its start.
proof fn lemma_shift_skip_space(pre: Seq<char>, s: Seq<char>, p: int)
    requires
        0 <= p,
    ensures
        skip_space(pre + s, pre.len() + p) == pre.len() + skip_space(s, p),
    decreases s.len() - p,
{
    if p < s.len() {
        assert((pre + s)[pre.len() + p] == s[p]);
        lemma_shift_skip_space(pre, s, p + 1);
    }
}

proof fn lemma_shift_scan_number(pre: Seq<char>, s: Seq<char>, p: int, acc: u64)
    requires
        0 <= p,
    ensures
        scan_number(pre + s, pre.len() + p, acc) == (
            scan_number(s, p, acc).0,
            pre.len() + scan_number(s, p, acc).1,
        ),
    decreases s.len() - p,
{
    if p < s.len() {
        assert((pre + s)[pre.len() + p] == s[p]);
        if is_digit(s[p]) && acc * 10 + digit_value(s[p]) <= u64::MAX {
            lemma_shift_scan_number(pre, s, p + 1, (acc * 10 + digit_value(s[p])) as u64);
        }
    }
}

proof fn lemma_shift_ident_end(pre: Seq<char>, s: Seq<char>, p: int)
    requires
        0 <= p,
    ensures
        ident_end(pre + s, pre.len() + p) == pre.len() + ident_end(s, p),
    decreases s.len() - p,
{
    if p < s.len() {
        assert((pre + s)[pre.len() + p] == s[p]);
        lemma_shift_ident_end(pre, s, p + 1);
    }
}

proof fn lemma_shift_quote_end(pre: Seq<char>, s: Seq<char>, p: int, q: char)
    requires
        0 <= p,
    ensures
        quote_end(pre + s, pre.len() + p, q) == pre.len() + quote_end(s, p, q),
    decreases s.len() - p,
{
    if p < s.len() {
        assert((pre + s)[pre.len() + p] == s[p]);
        lemma_shift_quote_end(pre, s, p + 1, q);
    }
}

proof fn lemma_shift_next_token(pre: Seq<char>, s: Seq<char>, p: int)
    requires
        0 <= p <= s.len(),
    ensures
        next_token(pre + s, pre.len() + p) == match next_token(s, p) {
            Ok(Some((t, e))) => Ok(Some((t, pre.len() + e))),
            other => other,
        },
{
    let t = pre + s;
    let k = pre.len() as int;
    lemma_shift_skip_space(pre, s, p);
    lemma_skip_space(s, p);
    let q = skip_space(s, p);
    if q < s.len() {
        assert(t[k + q] == s[q]);
        lemma_shift_scan_number(pre, s, q, 0);
        lemma_shift_ident_end(pre, s, q);
        lemma_shift_quote_end(pre, s, q + 1, s[q]);
        lemma_ident_end(s, q);
        lemma_quote_end(s, q + 1, s[q]);
        let e = ident_end(s, q);
        assert(t.subrange(k + q, k + e) =~= s.subrange(q, e));
        let f = quote_end(s, q + 1, s[q]);
        if f < s.len() {
            assert(t.subrange(k + q + 1, k + f) =~= s.subrange(q + 1, f));
        }
    }
}

/// Lexing does not look behind its start: the tokens from a position of `pre + s` inside
/// `s` are those of `s` from there.
pub proof fn lemma_shift_lex_from(pre: Seq<char>, s: Seq<char>, p: int)
    requires
        0 <= p <= s.len(),
    ensures
        lex_from(pre + s, pre.len() + p) == lex_from(s, p),
    decreases s.len() - p,
{
    lemma_shift_next_token(pre, s, p);
    lemma_next_token_progress(s, p);
    if let Ok(Some((t, e))) = next_token(s, p) {
        lemma_shift_lex_from(pre, s, e);
    }
}

/// The value of the decimal digits `w` read onto `acc`.
pub open spec fn digits_value(w: Seq<char>, acc: int) -> int
    decreases w.len(),
{
    if w.len() == 0 {
        acc
    } else {
        digits_value(w.drop_first(), acc * 10 + digit_value(w[0]))
    }
}

pub open spec fn all_digits(w: Seq<char>) -> bool {
    forall|i: int| 0 <= i < w.len() ==> is_digit(#[trigger] w[i])
}

proof fn lemma_digits_value_grows(w: Seq<char>, acc: int)
    requires
        all_digits(w),
        acc >= 0,
    ensures
        digits_value(w, acc) >= acc,
    decreases w.len(),
{
    if w.len() > 0 {
        assert(is_digit(w[0]));
        assert(all_digits(w.drop_first())) by {
            assert forall|i: int| 0 <= i < w.drop_first().len() implies is_digit(
                #[trigger] w.drop_first()[i],
            ) by {
                assert(w.drop_first()[i] == w[i + 1]);
            }
        }
        lemma_digits_value_grows(w.drop_first(), acc * 10 + digit_value(w[0]));
    }
}

/// A run of digits that fits in a `u64` and ends at a non-digit is read whole as one number.
pub proof fn lemma_scan_digits(s: Seq<char>, p: int, e: int, acc: u64)
    requires
        0 <= p <= e <= s.len(),
        all_digits(s.subrange(p, e)),
        e == s.len() || !is_digit(s[e]),
        digits_value(s.subrange(p, e), acc as int) <= u64::MAX,
    ensures
        scan_number(s, p, acc) == (digits_value(s.subrange(p, e), acc as int) as u64, e),
    decreases e - p,
{
    let w = s.subrange(p, e);
    if p < e {
        assert(w[0] == s[p]);
        assert(is_digit(s[p]));
        let a2 = acc * 10 + digit_value(s[p]);
        assert(w.drop_first() =~= s.subrange(p + 1, e));
        assert(all_digits(s.subrange(p + 1, e))) by {
            assert forall|i: int| 0 <= i < s.subrange(p + 1, e).len() implies is_digit(
                #[trigger] s.subrange(p + 1, e)[i],
            ) by {
                assert(s.subrange(p + 1, e)[i] == w[i + 1]);
            }
        }
        lemma_digits_value_grows(s.subrange(p + 1, e), a2);
        lemma_scan_digits(s, p + 1, e, a2 as u64);
    } else {
        assert(w.len() == 0);
    }
}

} // verus!
