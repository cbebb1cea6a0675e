use vstd::prelude::*;

use crate::ast::lit::Lit;
use crate::object::Offset;
use crate::token::{Kind, TokenType};
use crate::utils::Loc;

verus! {

/// An expression.
#[derive(Debug)]
pub enum Expr {
    Binary(BinaryExpr),
    Literal(Lit),
    Unary(UnaryExpr),
    Assign(AssignExpr),
    Ident(IdentExpr),
    Deref(DerefExpr),
    Addr(AddrExpr),
}

/// A variable, with the slot that the symbol table gave its name.
#[derive(Debug)]
pub struct IdentExpr {
    pub loc: Loc,
    pub name: String,
    pub offset: Offset,
}

/// What `=` can store to: a variable or a dereference.
#[derive(Debug)]
pub enum LeftVal {
    Ident(IdentExpr),
    Deref(DerefExpr),
}

#[derive(Debug)]
pub struct AssignExpr {
    pub loc: Loc,
    pub left: Box<LeftVal>,
    pub right: Box<Expr>,
}

#[derive(Debug)]
pub struct BinaryExpr {
    pub loc: Loc,
    pub left: Box<Expr>,
    pub op: BinaryOp,
    pub right: Box<Expr>,
}

/// Which operand of a pointer `+` or `-` is the pointer.
#[derive(Clone, Copy, Debug, PartialEq, Eq, Structural)]
pub enum BinaryAddrPos {
    /// `ptr + num`, `ptr - num`
    Left,
    /// `num + ptr`
    Right,
    /// `ptr - ptr`
    Both,
}

/// A binary operator, with `+` and `-` told apart by pointer operands.
#[derive(Clone, Copy, Debug, PartialEq, Eq, Structural)]
pub enum BinaryOp {
    Add,
    Sub,
    AddrAdd(BinaryAddrPos),
    AddrSub(BinaryAddrPos),
    Mul,
    Div,
    Equal,
    NotEqual,
    Less,
    LessEqual,
    Great,
    GreatEqual,
}

/// A prefix `+` or `-`.
#[derive(Debug)]
pub struct UnaryExpr {
    pub loc: Loc,
    pub op: TokenType,
    pub argument: Box<Expr>,
    pub prefix: bool,
}

/// `*argument`: the value stored at an address.
#[derive(Debug)]
pub struct DerefExpr {
    pub loc: Loc,
    pub argument: Box<Expr>,
}

/// `&argument`: the address of a variable or of a dereference.
#[derive(Debug)]
pub struct AddrExpr {
    pub loc: Loc,
    pub argument: Box<Expr>,
}

/// The mathematical value of an `Expr`.
pub enum ExprView {
    Binary { loc: Loc, left: Box<ExprView>, op: BinaryOp, right: Box<ExprView> },
    Literal { loc: Loc, num: Seq<char> },
    Unary { loc: Loc, op: Kind, argument: Box<ExprView>, prefix: bool },
    Assign { loc: Loc, left: Box<LeftView>, right: Box<ExprView> },
    Ident { loc: Loc, name: Seq<char>, offset: usize },
    Deref { loc: Loc, argument: Box<ExprView> },
    Addr { loc: Loc, argument: Box<ExprView> },
}

/// The mathematical value of a `LeftVal`.
pub enum LeftView {
    Ident { loc: Loc, name: Seq<char>, offset: usize },
    Deref { loc: Loc, argument: Box<ExprView> },
}

impl ExprView {
    pub open spec fn loc(self) -> Loc {
        match self {
            ExprView::Binary { loc, .. } => loc,
            ExprView::Literal { loc, .. } => loc,
            ExprView::Unary { loc, .. } => loc,
            ExprView::Assign { loc, .. } => loc,
            ExprView::Ident { loc, .. } => loc,
            ExprView::Deref { loc, .. } => loc,
            ExprView::Addr { loc, .. } => loc,
        }
    }
}

pub open spec fn expr_view(e: &Expr) -> ExprView
    decreases e,
{
    match e {
        Expr::Binary(b) => ExprView::Binary {
            loc: b.loc,
            left: Box::new(expr_view(&*b.left)),
            op: b.op,
            right: Box::new(expr_view(&*b.right)),
        },
        Expr::Literal(Lit::Int32(l)) => ExprView::Literal { loc: l.loc, num: l.num@ },
        Expr::Unary(u) => ExprView::Unary {
            loc: u.loc,
            op: u.op@,
            argument: Box::new(expr_view(&*u.argument)),
            prefix: u.prefix,
        },
        Expr::Assign(a) => ExprView::Assign {
            loc: a.loc,
            left: Box::new(
                match &*a.left {
                    LeftVal::Ident(i) => LeftView::Ident { loc: i.loc, name: i.name@, offset: i.offset },
                    LeftVal::Deref(d) => LeftView::Deref {
                        loc: d.loc,
                        argument: Box::new(expr_view(&*d.argument)),
                    },
                },
            ),
            right: Box::new(expr_view(&*a.right)),
        },
        Expr::Ident(i) => ExprView::Ident { loc: i.loc, name: i.name@, offset: i.offset },
        Expr::Deref(d) => ExprView::Deref { loc: d.loc, argument: Box::new(expr_view(&*d.argument)) },
        Expr::Addr(a) => ExprView::Addr { loc: a.loc, argument: Box::new(expr_view(&*a.argument)) },
    }
}

impl View for Expr {
    type V = ExprView;

    open spec fn view(&self) -> ExprView {
        expr_view(self)
    }
}

impl View for IdentExpr {
    type V = ExprView;

    open spec fn view(&self) -> ExprView {
        ExprView::Ident { loc: self.loc, name: self.name@, offset: self.offset }
    }
}

impl View for Lit {
    type V = ExprView;

    open spec fn view(&self) -> ExprView {
        match self {
            Lit::Int32(l) => ExprView::Literal { loc: l.loc, num: l.num@ },
        }
    }
}

impl Expr {
    pub fn is_addr(&self) -> (r: bool)
        ensures
            r == (self@ is Addr),
    {
        matches!(self, Expr::Addr(_))
    }

    pub fn as_binary(&self) -> (r: Option<&BinaryExpr>)
        ensures
            r == (match self {
                Expr::Binary(b) => Some(b),
                _ => None,
            }),
            r is Some <==> self@ is Binary,
    {
        match self {
            Expr::Binary(expr) => Some(expr),
            _ => None,
        }
    }

    pub fn loc(&self) -> (r: Loc)
        ensures
            r == self@.loc(),
    {
        match self {
            Expr::Binary(expr) => expr.loc,
            Expr::Literal(expr) => expr.loc(),
            Expr::Unary(expr) => expr.loc,
            Expr::Assign(expr) => expr.loc,
            Expr::Ident(expr) => expr.loc,
            Expr::Deref(expr) => expr.loc,
            Expr::Addr(expr) => expr.loc,
        }
    }
}

} // verus!
