use vstd::prelude::*;

use crate::utils::{Loc, Pos};

verus! {

/// The kind of a lexical unit, with the text of numbers and names.
#[derive(Clone, Debug)]
pub enum TokenType {
    Eof,
    Int32(String),
    Plus,
    Minus,
    Star,
    Slash,
    ParenL,
    ParenR,
    BraceL,
    BraceR,
    Equal,
    NotEqual,
    Less,
    LessEqual,
    Great,
    GreatEqual,
    Semi,
    Assign,
    And,
    Name(String),
    If,
    Else,
    Return,
    For,
    While,
}

/// The mathematical value of a `TokenType`: text is a sequence of characters.
pub enum Kind {
    Eof,
    Int32(Seq<char>),
    Plus,
    Minus,
    Star,
    Slash,
    ParenL,
    ParenR,
    BraceL,
    BraceR,
    Equal,
    NotEqual,
    Less,
    LessEqual,
    Great,
    GreatEqual,
    Semi,
    Assign,
    And,
    Name(Seq<char>),
    If,
    Else,
    Return,
    For,
    While,
}

impl View for TokenType {
    type V = Kind;

    open spec fn view(&self) -> Kind {
        match self {
            TokenType::Eof => Kind::Eof,
            TokenType::Int32(s) => Kind::Int32(s@),
            TokenType::Plus => Kind::Plus,
            TokenType::Minus => Kind::Minus,
            TokenType::Star => Kind::Star,
            TokenType::Slash => Kind::Slash,
            TokenType::ParenL => Kind::ParenL,
            TokenType::ParenR => Kind::ParenR,
            TokenType::BraceL => Kind::BraceL,
            TokenType::BraceR => Kind::BraceR,
            TokenType::Equal => Kind::Equal,
            TokenType::NotEqual => Kind::NotEqual,
            TokenType::Less => Kind::Less,
            TokenType::LessEqual => Kind::LessEqual,
            TokenType::Great => Kind::Great,
            TokenType::GreatEqual => Kind::GreatEqual,
            TokenType::Semi => Kind::Semi,
            TokenType::Assign => Kind::Assign,
            TokenType::And => Kind::And,
            TokenType::Name(s) => Kind::Name(s@),
            TokenType::If => Kind::If,
            TokenType::Else => Kind::Else,
            TokenType::Return => Kind::Return,
            TokenType::For => Kind::For,
            TokenType::While => Kind::While,
        }
    }
}

impl Kind {
    /// Binding strength of a binary operator: a smaller number binds tighter.
    pub open spec fn prec(self) -> Option<u16> {
        match self {
            Kind::Plus | Kind::Minus => Some(4u16),
            Kind::Star | Kind::Slash => Some(3u16),
            Kind::Equal | Kind::NotEqual | Kind::Less | Kind::LessEqual | Kind::Great
            | Kind::GreatEqual => Some(7u16),
            _ => None,
        }
    }

    /// Whether the kind is a prefix sign, `+` or `-`.
    pub open spec fn is_prefix(self) -> bool {
        self is Plus || self is Minus
    }
}

impl TokenType {
    pub fn prec(&self) -> (r: Option<u16>)
        ensures
            r == self@.prec(),
    {
        match self {
            TokenType::Plus | TokenType::Minus => Some(4),
            TokenType::Star | TokenType::Slash => Some(3),
            TokenType::Equal | TokenType::NotEqual | TokenType::Less | TokenType::LessEqual
            | TokenType::Great | TokenType::GreatEqual => Some(7),
            _ => None,
        }
    }

    pub fn prefix(&self) -> (r: bool)
        ensures
            r == self@.is_prefix(),
    {
        matches!(self, TokenType::Plus | TokenType::Minus)
    }

    pub fn assign(&self) -> (r: bool)
        ensures
            r == (self@ is Assign),
    {
        matches!(self, TokenType::Assign)
    }

    /// A copy whose value is the same as this one's.
    pub fn duplicate(&self) -> (r: TokenType)
        ensures
            r@ == self@,
    {
        match self {
            TokenType::Int32(s) => TokenType::Int32(s.clone()),
            TokenType::Name(s) => TokenType::Name(s.clone()),
            TokenType::Eof => TokenType::Eof,
            TokenType::Plus => TokenType::Plus,
            TokenType::Minus => TokenType::Minus,
            TokenType::Star => TokenType::Star,
            TokenType::Slash => TokenType::Slash,
            TokenType::ParenL => TokenType::ParenL,
            TokenType::ParenR => TokenType::ParenR,
            TokenType::BraceL => TokenType::BraceL,
            TokenType::BraceR => TokenType::BraceR,
            TokenType::Equal => TokenType::Equal,
            TokenType::NotEqual => TokenType::NotEqual,
            TokenType::Less => TokenType::Less,
            TokenType::LessEqual => TokenType::LessEqual,
            TokenType::Great => TokenType::Great,
            TokenType::GreatEqual => TokenType::GreatEqual,
            TokenType::Semi => TokenType::Semi,
            TokenType::Assign => TokenType::Assign,
            TokenType::And => TokenType::And,
            TokenType::If => TokenType::If,
            TokenType::Else => TokenType::Else,
            TokenType::Return => TokenType::Return,
            TokenType::For => TokenType::For,
            TokenType::While => TokenType::While,
        }
    }

    /// Whether two kinds are equal, text included.
    pub fn same(&self, other: &TokenType) -> (r: bool)
        ensures
            r == (self@ == other@),
    {
        match self {
            TokenType::Int32(a) => match other {
                TokenType::Int32(b) => a.eq(b),
                _ => false,
            },
            TokenType::Name(a) => match other {
                TokenType::Name(b) => a.eq(b),
                _ => false,
            },
            TokenType::Eof => matches!(other, TokenType::Eof),
            TokenType::Plus => matches!(other, TokenType::Plus),
            TokenType::Minus => matches!(other, TokenType::Minus),
            TokenType::Star => matches!(other, TokenType::Star),
            TokenType::Slash => matches!(other, TokenType::Slash),
            TokenType::ParenL => matches!(other, TokenType::ParenL),
            TokenType::ParenR => matches!(other, TokenType::ParenR),
            TokenType::BraceL => matches!(other, TokenType::BraceL),
            TokenType::BraceR => matches!(other, TokenType::BraceR),
            TokenType::Equal => matches!(other, TokenType::Equal),
            TokenType::NotEqual => matches!(other, TokenType::NotEqual),
            TokenType::Less => matches!(other, TokenType::Less),
            TokenType::LessEqual => matches!(other, TokenType::LessEqual),
            TokenType::Great => matches!(other, TokenType::Great),
            TokenType::GreatEqual => matches!(other, TokenType::GreatEqual),
            TokenType::Semi => matches!(other, TokenType::Semi),
            TokenType::Assign => matches!(other, TokenType::Assign),
            TokenType::And => matches!(other, TokenType::And),
            TokenType::If => matches!(other, TokenType::If),
            TokenType::Else => matches!(other, TokenType::Else),
            TokenType::Return => matches!(other, TokenType::Return),
            TokenType::For => matches!(other, TokenType::For),
            TokenType::While => matches!(other, TokenType::While),
        }
    }
}

/// A lexical unit: its kind and the source span it covers. Only the
/// placeholder made by `Token::eof` has no span.
#[derive(Clone, Debug)]
pub struct Token {
    pub loc: Option<Loc>,
    pub kind: TokenType,
}

/// The mathematical value of a `Token`.
pub struct TokenView {
    pub loc: Option<Loc>,
    pub kind: Kind,
}

impl View for Token {
    type V = TokenView;

    open spec fn view(&self) -> TokenView {
        TokenView { loc: self.loc, kind: self.kind@ }
    }
}

impl Token {
    pub fn new(loc: Loc, kind: TokenType) -> (r: Self)
        ensures
            r@ == (TokenView { loc: Some(loc), kind: kind@ }),
    {
        Token { loc: Some(loc), kind }
    }

    pub fn get_start(&self) -> (r: Pos)
        requires
            self.loc is Some,
        ensures
            r == self.loc.unwrap().start,
    {
        self.loc.unwrap().get_start()
    }

    pub fn get_end(&self) -> (r: Pos)
        requires
            self.loc is Some && self.loc.unwrap().end is Some,
        ensures
            r == self.loc.unwrap().end.unwrap(),
    {
        self.loc.unwrap().get_end()
    }

    pub fn get_type(&self) -> (r: &TokenType)
        ensures
            r == &self.kind,
    {
        &self.kind
    }

    pub fn is_eof(&self) -> (r: bool)
        ensures
            r == (self@.kind is Eof),
    {
        matches!(self.kind, TokenType::Eof)
    }

    pub fn eof() -> (r: Self)
        ensures
            r@ == (TokenView { loc: None, kind: Kind::Eof }),
    {
        Token { loc: None, kind: TokenType::Eof }
    }

    /// A copy whose value is the same as this one's.
    pub fn duplicate(&self) -> (r: Token)
        ensures
            r@ == self@,
    {
        Token { loc: self.loc, kind: self.kind.duplicate() }
    }
}

} // verus!
