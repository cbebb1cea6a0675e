//! Reading one token at a time from the source characters.
use vstd::prelude::*;
use vstd::string::*;

use crate::error::{SError, SErrorView, SyntaxError, SyntaxErrorView};
use crate::state::{at, SResult, State};
use crate::token::{Kind, Token, TokenType, TokenView};
use crate::utils::{Loc, Pos};

verus! {

pub open spec fn is_digit(c: char) -> bool {
    '0' <= c <= '9'
}

/// A character that can start a name.
pub open spec fn is_word_start(c: char) -> bool {
    ('a' <= c <= 'z') || ('A' <= c <= 'Z') || c == '_'
}

/// A character that can continue a name.
pub open spec fn is_word(c: char) -> bool {
    is_word_start(c) || is_digit(c)
}

/// The first position at or after `p` that is not a blank.
pub open spec fn skip_blanks(input: Seq<char>, p: int) -> int
    decreases input.len() - p,
{
    if 0 <= p < input.len() && input[p] == ' ' {
        skip_blanks(input, p + 1)
    } else {
        p
    }
}

/// The end of the run of digits that starts at `p`.
pub open spec fn digits_end(input: Seq<char>, p: int) -> int
    decreases input.len() - p,
{
    if 0 <= p < input.len() && is_digit(input[p]) {
        digits_end(input, p + 1)
    } else {
        p
    }
}

/// The end of the run of name characters that starts at `p`.
pub open spec fn word_end(input: Seq<char>, p: int) -> int
    decreases input.len() - p,
{
    if 0 <= p < input.len() && is_word(input[p]) {
        word_end(input, p + 1)
    } else {
        p
    }
}

/// The keyword that `w` spells, if any.
pub open spec fn keyword(w: Seq<char>) -> Option<Kind> {
    if w == "return"@ {
        Some(Kind::Return)
    } else if w == "if"@ {
        Some(Kind::If)
    } else if w == "else"@ {
        Some(Kind::Else)
    } else if w == "for"@ {
        Some(Kind::For)
    } else if w == "while"@ {
        Some(Kind::While)
    } else {
        None
    }
}

/// A token of kind `k` that spans `a..b`.
pub open spec fn span(a: int, b: int, k: Kind) -> TokenView {
    TokenView { loc: Some(Loc { start: at(a), end: Some(at(b)) }), kind: k }
}

/// A token that `c` alone makes, or `c` followed by `=`.
pub open spec fn one_or_two(input: Seq<char>, s: int, one: Kind, two: Kind) -> (TokenView, int) {
    if s + 1 < input.len() && input[s + 1] == '=' {
        (span(s, s + 2, two), s + 2)
    } else {
        (span(s, s + 1, one), s + 1)
    }
}

/// The token that starts at `s`, the first non-blank at or after `p`, with
/// the position after it. Brackets and `;` span the blanks before them too.
pub open spec fn lex_at(input: Seq<char>, p: int, s: int) -> Result<(TokenView, int), SErrorView> {
    if s >= input.len() {
        Ok((span(p, s, Kind::Eof), s))
    } else {
        let c = input[s];
        if is_digit(c) {
            let e = digits_end(input, s);
            Ok((span(s, e, Kind::Int32(input.subrange(s, e))), e))
        } else if c == '&' {
            Ok((span(s, s + 1, Kind::And), s + 1))
        } else if c == '+' {
            Ok((span(s, s + 1, Kind::Plus), s + 1))
        } else if c == '-' {
            Ok((span(s, s + 1, Kind::Minus), s + 1))
        } else if c == '*' {
            Ok((span(s, s + 1, Kind::Star), s + 1))
        } else if c == '/' {
            Ok((span(s, s + 1, Kind::Slash), s + 1))
        } else if c == '(' {
            Ok((span(p, s + 1, Kind::ParenL), s + 1))
        } else if c == ')' {
            Ok((span(p, s + 1, Kind::ParenR), s + 1))
        } else if c == '{' {
            Ok((span(p, s + 1, Kind::BraceL), s + 1))
        } else if c == '}' {
            Ok((span(p, s + 1, Kind::BraceR), s + 1))
        } else if c == ';' {
            Ok((span(p, s + 1, Kind::Semi), s + 1))
        } else if c == '=' {
            Ok(one_or_two(input, s, Kind::Assign, Kind::Equal))
        } else if c == '!' {
            if s + 1 < input.len() && input[s + 1] == '=' {
                Ok((span(s, s + 2, Kind::NotEqual), s + 2))
            } else {
                Err(SErrorView { pos: (s + 2) as usize, error: SyntaxErrorView::UnexpectedChar })
            }
        } else if c == '<' {
            Ok(one_or_two(input, s, Kind::Less, Kind::LessEqual))
        } else if c == '>' {
            Ok(one_or_two(input, s, Kind::Great, Kind::GreatEqual))
        } else {
            let e = word_end(input, s);
            let w = input.subrange(s, e);
            Ok(
                (
                    span(
                        s,
                        e,
                        match keyword(w) {
                            Some(k) => k,
                            None => Kind::Name(w),
                        },
                    ),
                    e,
                ),
            )
        }
    }
}

/// The token read from position `p`, with the position after it.
#[verifier::opaque]
pub open spec fn lex(input: Seq<char>, p: int) -> Result<(TokenView, int), SErrorView> {
    lex_at(input, p, skip_blanks(input, p))
}

/// `new` is `old` after a step of reading that gave `res`: on success the
/// current token and the position are replaced, nothing else changes.
pub open spec fn lexed(
    old: &State,
    new: &State,
    r: SResult<()>,
    res: Result<(TokenView, int), SErrorView>,
) -> bool {
    match res {
        Ok((t, e)) => {
            &&& r is Ok
            &&& new.wf()
            &&& new@ == (crate::state::StateView { cur: t, pos: e, ..old@ })
        },
        Err(err) => {
            &&& r is Err
            &&& r->Err_0@ == err
        },
    }
}

pub proof fn lemma_skip_blanks(input: Seq<char>, p: int)
    requires
        0 <= p <= input.len(),
    ensures
        p <= skip_blanks(input, p) <= input.len(),
    decreases input.len() - p,
{
    if 0 <= p < input.len() && input[p] == ' ' {
        lemma_skip_blanks(input, p + 1);
    }
}

pub proof fn lemma_digits_end(input: Seq<char>, p: int)
    requires
        0 <= p <= input.len(),
    ensures
        p <= digits_end(input, p) <= input.len(),
    decreases input.len() - p,
{
    if 0 <= p < input.len() && is_digit(input[p]) {
        lemma_digits_end(input, p + 1);
    }
}

pub proof fn lemma_word_end(input: Seq<char>, p: int)
    requires
        0 <= p <= input.len(),
    ensures
        p <= word_end(input, p) <= input.len(),
    decreases input.len() - p,
{
    if 0 <= p < input.len() && is_word(input[p]) {
        lemma_word_end(input, p + 1);
    }
}

/// Reading never moves backwards and never runs past the end.
pub proof fn lemma_lex_bounds(input: Seq<char>, p: int)
    requires
        0 <= p <= input.len(),
        input.len() <= crate::state::MAX_INPUT,
    ensures
        lex(input, p) matches Ok((t, e)) ==> {
            &&& p <= e <= input.len()
            &&& t.loc is Some
            &&& t.loc.unwrap().end is Some
            &&& p <= t.loc.unwrap().start.pos
            &&& t.loc.unwrap().start.pos as int <= skip_blanks(input, p)
            &&& t.loc.unwrap().start.pos <= e
            &&& t.kind is Name ==> t.loc.unwrap().start.pos + t.kind->Name_0.len() <= e
        },
{
    reveal(lex);
    let s = skip_blanks(input, p);
    lemma_skip_blanks(input, p);
    if s < input.len() {
        lemma_digits_end(input, s);
        lemma_word_end(input, s);
    }
}

impl State {
    /// Makes the token of kind `kind` that started at `start` and ends here
    /// the current one.
    fn finish_token(&mut self, start: Pos, kind: TokenType) -> (r: SResult<()>)
        ensures
            r is Ok,
            final(self)@ == (crate::state::StateView {
                cur: TokenView { loc: Some(Loc { start, end: Some(at(old(self).pos as int)) }), kind: kind@ },
                ..old(self)@
            }),
            final(self).text == old(self).text,
            final(self).locals == old(self).locals,
    {
        let end = self.cur_pos();
        let token = Token::new(Loc::new(start, end), kind);
        self.cur = token;
        Ok(())
    }

    /// Reads the next token.
    pub fn next_token(&mut self) -> (r: SResult<()>)
        requires
            old(self).wf(),
        ensures
            lexed(old(self), final(self), r, lex(old(self)@.input, old(self)@.pos)),
    {
        let start = self.cur_pos();
        proof {
            reveal(lex);
            lemma_skip_blanks(self.input@, self.pos as int);
        }
        let _ = self.skip_space();
        if self.pos >= self.input.len() {
            self.finish_token(start, TokenType::Eof)
        } else {
            let c = self.input[self.pos];
            if '0' <= c && c <= '9' {
                self.read_number()
            } else if c == '&' {
                self.read_and()
            } else if c == '+' {
                self.read_plus()
            } else if c == '-' {
                self.read_minus()
            } else if c == '*' {
                self.read_star()
            } else if c == '/' {
                self.read_slash()
            } else if c == '(' {
                self.pos += 1;
                self.finish_token(start, TokenType::ParenL)
            } else if c == ')' {
                self.pos += 1;
                self.finish_token(start, TokenType::ParenR)
            } else if c == '{' {
                self.pos += 1;
                self.finish_token(start, TokenType::BraceL)
            } else if c == '}' {
                self.pos += 1;
                self.finish_token(start, TokenType::BraceR)
            } else if c == '=' {
                self.read_equal()
            } else if c == '!' {
                self.read_excl()
            } else if c == '<' {
                self.read_less()
            } else if c == '>' {
                self.read_greater()
            } else if c == ';' {
                self.pos += 1;
                self.finish_token(start, TokenType::Semi)
            } else {
                self.read_word()
            }
        }
    }

    /// Reads a run of digits.
    fn read_number(&mut self) -> (r: SResult<()>)
        requires
            old(self).wf(),
            old(self).pos < old(self)@.input.len(),
            is_digit(old(self)@.input[old(self).pos as int]),
        ensures
            lexed(
                old(self),
                final(self),
                r,
                lex_at(old(self)@.input, old(self)@.pos, old(self)@.pos),
            ),
    {
        let start = self.cur_pos();
        let s = self.pos;
        proof {
            lemma_digits_end(self.input@, s as int);
        }
        while self.pos < self.input.len() && '0' <= self.input[self.pos] && self.input[self.pos] <= '9'
            invariant
                self.wf(),
                s <= self.pos <= self.input@.len(),
                digits_end(self.input@, self.pos as int) == digits_end(self.input@, s as int),
                self.input == old(self).input,
                self.text == old(self).text,
                self.locals == old(self).locals,
                self.cur == old(self).cur,
                self.last == old(self).last,
            decreases self.input@.len() - self.pos,
        {
            self.pos += 1;
        }
        let num = String::from_str(self.text.as_str().substring_char(s, self.pos));
        self.finish_token(start, TokenType::Int32(num))
    }

    pub fn is_valid_start(c: &char) -> (r: bool)
        ensures
            r == is_word_start(*c),
    {
        ('a' <= *c && *c <= 'z') || ('A' <= *c && *c <= 'Z') || *c == '_'
    }

    pub fn is_valid(c: &char) -> (r: bool)
        ensures
            r == is_word(*c),
    {
        Self::is_valid_start(c) || ('0' <= *c && *c <= '9')
    }

    /// Reads a name or a keyword; an empty name where no token starts.
    fn read_word(&mut self) -> (r: SResult<()>)
        requires
            old(self).wf(),
            old(self).pos < old(self)@.input.len(),
        ensures
            lexed(
                old(self),
                final(self),
                r,
                Ok(
                    (
                        span(
                            old(self)@.pos,
                            word_end(old(self)@.input, old(self)@.pos),
                            match keyword(
                                old(self)@.input.subrange(
                                    old(self)@.pos,
                                    word_end(old(self)@.input, old(self)@.pos),
                                ),
                            ) {
                                Some(k) => k,
                                None => Kind::Name(
                                    old(self)@.input.subrange(
                                        old(self)@.pos,
                                        word_end(old(self)@.input, old(self)@.pos),
                                    ),
                                ),
                            },
                        ),
                        word_end(old(self)@.input, old(self)@.pos),
                    ),
                ),
            ),
    {
        let start = self.cur_pos();
        let s = self.pos;
        proof {
            lemma_word_end(self.input@, s as int);
        }
        while self.pos < self.input.len() && Self::is_valid(&self.input[self.pos])
            invariant
                self.wf(),
                s <= self.pos <= self.input@.len(),
                word_end(self.input@, self.pos as int) == word_end(self.input@, s as int),
                self.input == old(self).input,
                self.text == old(self).text,
                self.locals == old(self).locals,
                self.cur == old(self).cur,
                self.last == old(self).last,
            decreases self.input@.len() - self.pos,
        {
            self.pos += 1;
        }
        let word = self.text.as_str().substring_char(s, self.pos);
        let kind = match self.is_keyword(word) {
            Some(k) => k,
            None => TokenType::Name(String::from_str(word)),
        };
        self.finish_token(start, kind)
    }

    /// The keyword that `word` spells, if any.
    pub fn is_keyword(&self, word: &str) -> (r: Option<TokenType>)
        ensures
            match r {
                Some(t) => keyword(word@) == Some(t@),
                None => keyword(word@) is None,
            },
    {
        let w = String::from_str(word);
        if w.eq(&String::from_str("return")) {
            Some(TokenType::Return)
        } else if w.eq(&String::from_str("if")) {
            Some(TokenType::If)
        } else if w.eq(&String::from_str("else")) {
            Some(TokenType::Else)
        } else if w.eq(&String::from_str("for")) {
            Some(TokenType::For)
        } else if w.eq(&String::from_str("while")) {
            Some(TokenType::While)
        } else {
            None
        }
    }

    /// Reads `==` or `=`.
    fn read_equal(&mut self) -> (r: SResult<()>)
        requires
            old(self).wf(),
            old(self).pos < old(self)@.input.len(),
        ensures
            lexed(
                old(self),
                final(self),
                r,
                Ok(one_or_two(old(self)@.input, old(self)@.pos, Kind::Assign, Kind::Equal)),
            ),
    {
        let start = self.cur_pos();
        if self.pos + 1 < self.input.len() && self.input[self.pos + 1] == '=' {
            self.pos += 2;
            return self.finish_token(start, TokenType::Equal);
        }
        self.pos += 1;
        self.finish_token(start, TokenType::Assign)
    }

    /// Reads `!=`; a `!` alone is an error.
    fn read_excl(&mut self) -> (r: SResult<()>)
        requires
            old(self).wf(),
            old(self).pos < old(self)@.input.len(),
            old(self)@.input[old(self).pos as int] == '!',
        ensures
            lexed(
                old(self),
                final(self),
                r,
                lex_at(old(self)@.input, old(self)@.pos, old(self)@.pos),
            ),
    {
        let start = self.cur_pos();
        if self.pos + 1 < self.input.len() && self.input[self.pos + 1] == '=' {
            self.pos += 2;
            return self.finish_token(start, TokenType::NotEqual);
        }
        self.pos += 1;
        Err(SError::new(self.pos + 1, SyntaxError::UnexpectedChar))
    }

    /// Reads `&`.
    fn read_and(&mut self) -> (r: SResult<()>)
        requires
            old(self).wf(),
            old(self).pos < old(self)@.input.len(),
        ensures
            lexed(
                old(self),
                final(self),
                r,
                Ok((span(old(self)@.pos, old(self)@.pos + 1, Kind::And), old(self)@.pos + 1)),
            ),
    {
        let start = self.cur_pos();
        self.pos += 1;
        self.finish_token(start, TokenType::And)
    }

    /// Reads `<=` or `<`.
    fn read_less(&mut self) -> (r: SResult<()>)
        requires
            old(self).wf(),
            old(self).pos < old(self)@.input.len(),
        ensures
            lexed(
                old(self),
                final(self),
                r,
                Ok(one_or_two(old(self)@.input, old(self)@.pos, Kind::Less, Kind::LessEqual)),
            ),
    {
        let start = self.cur_pos();
        if self.pos + 1 < self.input.len() && self.input[self.pos + 1] == '=' {
            self.pos += 2;
            return self.finish_token(start, TokenType::LessEqual);
        }
        self.pos += 1;
        self.finish_token(start, TokenType::Less)
    }

    /// Reads `>=` or `>`.
    fn read_greater(&mut self) -> (r: SResult<()>)
        requires
            old(self).wf(),
            old(self).pos < old(self)@.input.len(),
        ensures
            lexed(
                old(self),
                final(self),
                r,
                Ok(one_or_two(old(self)@.input, old(self)@.pos, Kind::Great, Kind::GreatEqual)),
            ),
    {
        let start = self.cur_pos();
        if self.pos + 1 < self.input.len() && self.input[self.pos + 1] == '=' {
            self.pos += 2;
            return self.finish_token(start, TokenType::GreatEqual);
        }
        self.pos += 1;
        self.finish_token(start, TokenType::Great)
    }

    /// Reads `+`.
    fn read_plus(&mut self) -> (r: SResult<()>)
        requires
            old(self).wf(),
            old(self).pos < old(self)@.input.len(),
        ensures
            lexed(
                old(self),
                final(self),
                r,
                Ok((span(old(self)@.pos, old(self)@.pos + 1, Kind::Plus), old(self)@.pos + 1)),
            ),
    {
        let start = self.cur_pos();
        self.pos += 1;
        self.finish_token(start, TokenType::Plus)
    }

    /// Reads `-`.
    fn read_minus(&mut self) -> (r: SResult<()>)
        requires
            old(self).wf(),
            old(self).pos < old(self)@.input.len(),
        ensures
            lexed(
                old(self),
                final(self),
                r,
                Ok((span(old(self)@.pos, old(self)@.pos + 1, Kind::Minus), old(self)@.pos + 1)),
            ),
    {
        let start = self.cur_pos();
        self.pos += 1;
        self.finish_token(start, TokenType::Minus)
    }

    /// Reads `*`.
    fn read_star(&mut self) -> (r: SResult<()>)
        requires
            old(self).wf(),
            old(self).pos < old(self)@.input.len(),
        ensures
            lexed(
                old(self),
                final(self),
                r,
                Ok((span(old(self)@.pos, old(self)@.pos + 1, Kind::Star), old(self)@.pos + 1)),
            ),
    {
        let start = self.cur_pos();
        self.pos += 1;
        self.finish_token(start, TokenType::Star)
    }

    /// Reads `/`.
    fn read_slash(&mut self) -> (r: SResult<()>)
        requires
            old(self).wf(),
            old(self).pos < old(self)@.input.len(),
        ensures
            lexed(
                old(self),
                final(self),
                r,
                Ok((span(old(self)@.pos, old(self)@.pos + 1, Kind::Slash), old(self)@.pos + 1)),
            ),
    {
        let start = self.cur_pos();
        self.pos += 1;
        self.finish_token(start, TokenType::Slash)
    }

    /// Moves past blanks.
    fn skip_space(&mut self) -> (r: SResult<()>)
        requires
            old(self).wf(),
        ensures
            r is Ok,
            final(self).wf(),
            final(self)@ == (crate::state::StateView {
                pos: skip_blanks(old(self)@.input, old(self)@.pos),
                ..old(self)@
            }),
            final(self).text == old(self).text,
            final(self).locals == old(self).locals,
    {
        let ghost first = self.pos as int;
        while self.pos < self.input.len() && self.input[self.pos] == ' '
            invariant
                self.wf(),
                first <= self.pos <= self.input@.len(),
                skip_blanks(self.input@, self.pos as int) == skip_blanks(self.input@, first),
                self.input == old(self).input,
                self.text == old(self).text,
                self.locals == old(self).locals,
                self.cur == old(self).cur,
                self.last == old(self).last,
            decreases self.input@.len() - self.pos,
        {
            self.pos += 1;
        }
        Ok(())
    }
}

} // verus!
