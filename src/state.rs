use vstd::prelude::*;

use crate::error::{SError, SErrorView, SyntaxError, SyntaxErrorView};
use crate::object::Object;
use crate::lexer::{
    digits_end, is_digit, lemma_digits_end, lemma_lex_bounds, lemma_skip_blanks, lemma_word_end, lex,
    skip_blanks, word_end,
};
use crate::token::{Kind, Token, TokenView};
use crate::utils::{Loc, Pos};

verus! {

/// The result of a step of reading: a value or the first syntax error.
pub type SResult<T> = Result<T, SError>;

/// The longest source, in characters, that can be read: frame offsets of
/// all its variables stay within `usize`.
pub const MAX_INPUT: usize = usize::MAX / 32;

/// The reading state of one compilation: the source, the position after the
/// current token, the current and the previous token, and the symbol table.
pub struct State {
    pub pos: usize,
    pub input: Vec<char>,
    pub text: String,
    pub cur: Token,
    pub last: Token,
    pub locals: Object,
}

/// The mathematical value of a `State`.
pub struct StateView {
    pub pos: int,
    pub input: Seq<char>,
    pub cur: TokenView,
    pub last: TokenView,
    pub locals: Seq<Seq<char>>,
}

impl View for State {
    type V = StateView;

    open spec fn view(&self) -> StateView {
        StateView {
            pos: self.pos as int,
            input: self.input@,
            cur: self.cur@,
            last: self.last@,
            locals: self.locals@,
        }
    }
}

/// The position `p` of a one-line source.
pub open spec fn at(p: int) -> Pos {
    Pos { pos: p as usize, line: 1, column: p as usize }
}

/// The error for an unexpected token.
pub open spec fn unexpected_error(t: TokenView) -> SErrorView {
    SErrorView { pos: t.loc.unwrap().start.pos, error: SyntaxErrorView::UnexpectedToken(t) }
}

impl State {
    /// The fields agree with each other.
    pub open spec fn wf(&self) -> bool {
        &&& self.text@ == self.input@
        &&& self.pos <= self.input@.len()
        &&& self.input@.len() <= MAX_INPUT
        &&& self.locals.wf()
    }

    pub fn new(input: String) -> (r: Self)
        requires
            input@.len() <= MAX_INPUT,
        ensures
            r.wf(),
            r@.pos == 0,
            r@.input == input@,
            r@.cur == (TokenView { loc: None, kind: crate::token::Kind::Eof }),
            r@.last == (TokenView { loc: None, kind: crate::token::Kind::Eof }),
            r@.locals == Seq::<Seq<char>>::empty(),
    {
        let n = input.as_str().unicode_len();
        let mut chars: Vec<char> = Vec::new();
        let mut i: usize = 0;
        while i < n
            invariant
                n == input@.len(),
                i <= n,
                chars@ == input@.subrange(0, i as int),
            decreases n - i,
        {
            chars.push(input.as_str().get_char(i));
            i += 1;
            proof {
                assert(chars@ =~= input@.subrange(0, i as int));
            }
        }
        proof {
            assert(chars@ =~= input@);
        }
        State {
            pos: 0,
            input: chars,
            text: input,
            cur: Token::eof(),
            last: Token::eof(),
            locals: Object::new(),
        }
    }

    pub fn cur_pos(&self) -> (r: Pos)
        ensures
            r == at(self.pos as int),
    {
        Pos::new(self.pos, 1, self.pos)
    }

    pub fn unexpected<T>(&self, token: &Token) -> (r: SResult<T>)
        requires
            token.loc is Some,
        ensures
            r is Err,
            r->Err_0@ == unexpected_error(token@),
    {
        let err = SError::new(token.get_start().pos, SyntaxError::UnexpectedToken(token.duplicate()));
        Err(err)
    }
}


/// What a step of parsing gives: a value and the state after it, or the
/// first syntax error.
pub type PResult<V> = Result<(V, StateView), SErrorView>;

/// A token that takes up at least one character when it is read.
pub open spec fn wide(k: Kind) -> bool {
    !(k is Eof) && k != Kind::Name(Seq::empty())
}

/// The progress measure of parsing: it never grows when a token is
/// consumed, and shrinks when a wide one is.
pub open spec fn measure(s: StateView) -> int {
    2 * (s.input.len() - s.pos) + if wide(s.cur.kind) {
        1int
    } else {
        0int
    }
}

/// The start of the current token.
pub open spec fn cur_start(s: StateView) -> Pos {
    s.cur.loc.unwrap().start
}

/// A state in which parsing can go on: both tokens have a span, and the
/// symbol table is bounded.
pub open spec fn ready(s: StateView) -> bool {
    &&& s.input.len() <= MAX_INPUT
    &&& 0 <= s.pos <= s.input.len()
    &&& s.cur.loc is Some
    &&& s.cur.loc.unwrap().end is Some
    &&& s.last.loc is Some
    &&& s.last.loc.unwrap().end is Some
    &&& cur_start(s).pos <= s.pos
    &&& s.cur.kind is Name ==> cur_start(s).pos + s.cur.kind->Name_0.len() <= s.pos
    &&& bounded(s)
}

/// The symbol table holds no more names than characters read before the
/// current token, plus the empty name that an unknown character reads as.
#[verifier::opaque]
pub open spec fn bounded(s: StateView) -> bool {
    s.locals.len() <= cur_start(s).pos + if s.locals.contains(Seq::empty()) {
        1int
    } else {
        0int
    }
}

/// Consumes the current token: it becomes the previous one, and the next
/// token is read.
pub open spec fn advance(s: StateView) -> Result<StateView, SErrorView> {
    match lex(s.input, s.pos) {
        Ok((t, e)) => Ok(StateView { last: s.cur, cur: t, pos: e, ..s }),
        Err(err) => Err(err),
    }
}

/// Consumes the current token if it is `k`, and says whether it did.
pub open spec fn eat(s: StateView, k: Kind) -> PResult<bool> {
    if s.cur.kind == k {
        match advance(s) {
            Ok(s1) => Ok((true, s1)),
            Err(e) => Err(e),
        }
    } else {
        Ok((false, s))
    }
}

/// Consumes the current token, which must be `k`.
pub open spec fn expect(s: StateView, k: Kind) -> Result<StateView, SErrorView> {
    match eat(s, k) {
        Ok((true, s1)) => Ok(s1),
        Ok((false, _)) => Err(unexpected_error(s.cur)),
        Err(e) => Err(e),
    }
}

/// The span from `start` to the end of the previous token.
pub open spec fn finish_loc(s: StateView, start: Pos) -> Loc {
    Loc { start, end: Some(s.last.loc.unwrap().end.unwrap()) }
}

/// The error a parse step gives where the state after a sub-step is not
/// closer to the end of the source. This is what makes the grammar's
/// recursion well founded; the parser never takes that branch, since each
/// of its steps is verified to keep the progress measure from growing.
pub open spec fn stuck(s: StateView) -> SErrorView {
    SErrorView { pos: s.pos as usize, error: SyntaxErrorView::UnexpectedChar }
}

proof fn lemma_keyword_lengths()
    ensures
        "return"@.len() == 6,
        "if"@.len() == 2,
        "else"@.len() == 4,
        "for"@.len() == 3,
        "while"@.len() == 5,
{
    reveal_strlit("return");
    reveal_strlit("if");
    reveal_strlit("else");
    reveal_strlit("for");
    reveal_strlit("while");
}

/// A wide token is at least one character long.
proof fn lemma_lex_wide(input: Seq<char>, p: int)
    requires
        0 <= p <= input.len(),
        input.len() <= MAX_INPUT,
    ensures
        lex(input, p) matches Ok((t, e)) ==> (wide(t.kind) ==> e >= p + 1),
{
    reveal(lex);
    lemma_lex_bounds(input, p);
    lemma_skip_blanks(input, p);
    lemma_keyword_lengths();
    let s = skip_blanks(input, p);
    if s < input.len() {
        if is_digit(input[s]) {
            lemma_digits_end(input, s + 1);
            assert(digits_end(input, s) >= s + 1);
        } else {
            lemma_word_end(input, s);
            let e = word_end(input, s);
            if e == s {
                assert(input.subrange(s, e) =~= Seq::<char>::empty());
            }
        }
    }
}

/// Consuming a token keeps the state ready, never increases the measure,
/// and decreases it when the token was wide.
pub proof fn lemma_advance(s: StateView)
    requires
        ready(s),
    ensures
        advance(s) matches Ok(s1) ==> {
            &&& ready(s1)
            &&& measure(s1) <= measure(s)
            &&& wide(s.cur.kind) ==> measure(s1) < measure(s)
            &&& cur_start(s1).pos >= s.pos
        },
{
    reveal(bounded);
    lemma_lex_bounds(s.input, s.pos);
    lemma_lex_wide(s.input, s.pos);
}

} // verus!
