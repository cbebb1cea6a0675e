use vstd::prelude::*;

use crate::token::{Token, TokenView};

verus! {

/// What went wrong while reading the source.
#[derive(Clone, Debug)]
pub enum SyntaxError {
    /// A character that starts no token.
    UnexpectedChar,
    /// A token that the grammar does not allow where it stands.
    UnexpectedToken(Token),
    /// The left side of `=` is neither a variable nor a dereference.
    CastWrong,
    /// `pointer + pointer` or `integer - pointer`; holds the operator.
    IllegalPointerArith(Token),
}

/// A syntax error with the character index it was found at.
#[derive(Clone, Debug)]
pub struct SError {
    pub pos: usize,
    pub error: SyntaxError,
}

/// The mathematical value of a `SyntaxError`.
pub enum SyntaxErrorView {
    UnexpectedChar,
    UnexpectedToken(TokenView),
    CastWrong,
    IllegalPointerArith(TokenView),
}

/// The mathematical value of an `SError`.
pub struct SErrorView {
    pub pos: usize,
    pub error: SyntaxErrorView,
}

impl View for SyntaxError {
    type V = SyntaxErrorView;

    open spec fn view(&self) -> SyntaxErrorView {
        match self {
            SyntaxError::UnexpectedChar => SyntaxErrorView::UnexpectedChar,
            SyntaxError::UnexpectedToken(t) => SyntaxErrorView::UnexpectedToken(t@),
            SyntaxError::CastWrong => SyntaxErrorView::CastWrong,
            SyntaxError::IllegalPointerArith(t) => SyntaxErrorView::IllegalPointerArith(t@),
        }
    }
}

impl View for SError {
    type V = SErrorView;

    open spec fn view(&self) -> SErrorView {
        SErrorView { pos: self.pos, error: self.error@ }
    }
}

impl SError {
    pub fn new(pos: usize, error: SyntaxError) -> (r: Self)
        ensures
            r@ == (SErrorView { pos, error: error@ }),
    {
        SError { pos, error }
    }
}

} // verus!
