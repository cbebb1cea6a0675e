use vstd::prelude::*;

use crate::ast::expr::{Expr, ExprView};
use crate::utils::Loc;

verus! {

/// A statement.
#[derive(Debug)]
pub enum Stmt {
    Expr(ExprStmt),
    Return(ReturnStmt),
    Block(BlockStmt),
    Empty(EmptyStmt),
    If(IfStmt),
    For(ForStmt),
    While(WhileStmt),
}

#[derive(Debug)]
pub struct ForStmt {
    pub loc: Loc,
    pub init: Option<Expr>,
    pub test: Option<Expr>,
    pub update: Option<Expr>,
    pub body: Box<Stmt>,
}

#[derive(Debug)]
pub struct WhileStmt {
    pub loc: Loc,
    pub test: Expr,
    pub body: Box<Stmt>,
}

#[derive(Debug)]
pub struct IfStmt {
    pub loc: Loc,
    pub test: Expr,
    pub consequent: Box<Stmt>,
    pub alternate: Option<Box<Stmt>>,
}

#[derive(Debug)]
pub struct EmptyStmt {
    pub loc: Loc,
}

#[derive(Debug)]
pub struct BlockStmt {
    pub loc: Loc,
    pub body: Vec<Stmt>,
}

#[derive(Debug)]
pub struct ExprStmt {
    pub loc: Loc,
    pub expr: Expr,
}

#[derive(Debug)]
pub struct ReturnStmt {
    pub loc: Loc,
    pub argument: Option<Expr>,
}

/// A whole program: its statements and the bytes its frame reserves.
#[derive(Debug)]
pub struct Program {
    pub loc: Loc,
    pub body: Vec<Stmt>,
    pub stack_size: usize,
}

/// The mathematical value of a `Stmt`.
pub enum StmtView {
    Expr { loc: Loc, expr: ExprView },
    Return { loc: Loc, argument: Option<ExprView> },
    Block { loc: Loc, body: Seq<StmtView> },
    Empty { loc: Loc },
    If { loc: Loc, test: ExprView, consequent: Box<StmtView>, alternate: Option<Box<StmtView>> },
    For {
        loc: Loc,
        init: Option<ExprView>,
        test: Option<ExprView>,
        update: Option<ExprView>,
        body: Box<StmtView>,
    },
    While { loc: Loc, test: ExprView, body: Box<StmtView> },
}

/// The mathematical value of a `Program`.
pub struct ProgramView {
    pub loc: Loc,
    pub body: Seq<StmtView>,
    pub stack_size: usize,
}

pub open spec fn opt_expr_view(e: &Option<Expr>) -> Option<ExprView> {
    match e {
        Some(x) => Some(x@),
        None => None,
    }
}

pub open spec fn stmt_view(s: &Stmt) -> StmtView
    decreases s,
{
    match s {
        Stmt::Expr(x) => StmtView::Expr { loc: x.loc, expr: x.expr@ },
        Stmt::Return(x) => StmtView::Return { loc: x.loc, argument: opt_expr_view(&x.argument) },
        Stmt::Block(x) => StmtView::Block {
            loc: x.loc,
            body: Seq::new(
                x.body@.len(),
                |i: int|
                    {
                        proof {
                            broadcast use vstd::std_specs::vec::axiom_vec_index_decreases;
                        }
                        if 0 <= i < x.body@.len() {
                            stmt_view(&x.body@[i])
                        } else {
                            StmtView::Empty { loc: x.loc }
                        }
                    },
            ),
        },
        Stmt::Empty(x) => StmtView::Empty { loc: x.loc },
        Stmt::If(x) => StmtView::If {
            loc: x.loc,
            test: x.test@,
            consequent: Box::new(stmt_view(&*x.consequent)),
            alternate: match &x.alternate {
                Some(a) => Some(Box::new(stmt_view(&**a))),
                None => None,
            },
        },
        Stmt::For(x) => StmtView::For {
            loc: x.loc,
            init: opt_expr_view(&x.init),
            test: opt_expr_view(&x.test),
            update: opt_expr_view(&x.update),
            body: Box::new(stmt_view(&*x.body)),
        },
        Stmt::While(x) => StmtView::While {
            loc: x.loc,
            test: x.test@,
            body: Box::new(stmt_view(&*x.body)),
        },
    }
}

impl View for Stmt {
    type V = StmtView;

    open spec fn view(&self) -> StmtView {
        stmt_view(self)
    }
}

impl View for ForStmt {
    type V = StmtView;

    open spec fn view(&self) -> StmtView {
        stmt_view(&Stmt::For(*self))
    }
}

impl View for WhileStmt {
    type V = StmtView;

    open spec fn view(&self) -> StmtView {
        stmt_view(&Stmt::While(*self))
    }
}

impl View for IfStmt {
    type V = StmtView;

    open spec fn view(&self) -> StmtView {
        stmt_view(&Stmt::If(*self))
    }
}

impl View for BlockStmt {
    type V = StmtView;

    open spec fn view(&self) -> StmtView {
        stmt_view(&Stmt::Block(*self))
    }
}

impl View for ReturnStmt {
    type V = StmtView;

    open spec fn view(&self) -> StmtView {
        stmt_view(&Stmt::Return(*self))
    }
}

pub open spec fn stmts_view(v: Seq<Stmt>) -> Seq<StmtView> {
    Seq::new(v.len(), |i: int| v[i]@)
}

impl View for Program {
    type V = ProgramView;

    open spec fn view(&self) -> ProgramView {
        ProgramView { loc: self.loc, body: stmts_view(self.body@), stack_size: self.stack_size }
    }
}

} // verus!
