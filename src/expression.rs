//! Expressions: precedence climbing over the binary operators, prefix
//! operators, and assignment.
use vstd::prelude::*;

use crate::ast::{
    AddrExpr, AssignExpr, BinaryAddrPos, BinaryExpr, BinaryOp, DerefExpr, Expr, ExprView, IdentExpr,
    Int32Lit, LeftVal, LeftView, Lit, UnaryExpr,
};
use crate::error::{SError, SErrorView, SyntaxError, SyntaxErrorView};
use crate::object::{declare, slot_of};
use crate::state::{
    advance, cur_start, expect, finish_loc, measure, ready, stuck, unexpected_error, PResult, SResult,
    State, StateView,
};
use crate::token::{Kind, Token, TokenType, TokenView};
use crate::utils::{Loc, Pos};

verus! {

/// The weakest binding accepted at the top of an expression: looser than
/// every binary operator.
pub const LOOSEST: u16 = 16;

/// `next` is no further from the end than `s`, by the progress measure.
pub open spec fn no_regress(next: StateView, s: StateView) -> bool {
    0 <= measure(next) <= measure(s)
}

/// `next` is closer to the end than `s`, by the progress measure.
pub open spec fn progress(next: StateView, s: StateView) -> bool {
    0 <= measure(next) < measure(s)
}

/// `r` and the state `new` are what the parse step `res` from `old` gives.
pub open spec fn outcome<T: View>(old: StateView, new: &State, r: &SResult<T>, res: PResult<T::V>) -> bool {
    match res {
        Ok((v, s)) => {
            &&& r is Ok
            &&& r->Ok_0@ == v
            &&& new@ == s
            &&& new.is_ready()
            &&& no_regress(s, old)
        },
        Err(e) => {
            &&& r is Err
            &&& r->Err_0@ == e
        },
    }
}

/// An expression that yields an address: `&x`, or pointer arithmetic that
/// yields a pointer.
pub open spec fn addr_bearing(e: ExprView) -> bool {
    match e {
        ExprView::Addr { .. } => true,
        ExprView::Binary { op, .. } => op == BinaryOp::AddrAdd(BinaryAddrPos::Left) || op
            == BinaryOp::AddrAdd(BinaryAddrPos::Right) || op == BinaryOp::AddrSub(
            BinaryAddrPos::Left,
        ) || op == BinaryOp::AddrSub(BinaryAddrPos::Right),
        _ => false,
    }
}

/// The operator that `l + r` resolves to; `None` for pointer plus pointer.
pub open spec fn add_op(l: ExprView, r: ExprView) -> Option<BinaryOp> {
    match (addr_bearing(l), addr_bearing(r)) {
        (true, true) => None,
        (false, false) => Some(BinaryOp::Add),
        (true, false) => Some(BinaryOp::AddrAdd(BinaryAddrPos::Left)),
        (false, true) => Some(BinaryOp::AddrAdd(BinaryAddrPos::Right)),
    }
}

/// The operator that `l - r` resolves to; `None` for integer minus pointer.
pub open spec fn sub_op(l: ExprView, r: ExprView) -> Option<BinaryOp> {
    match (addr_bearing(l), addr_bearing(r)) {
        (false, false) => Some(BinaryOp::Sub),
        (true, false) => Some(BinaryOp::AddrSub(BinaryAddrPos::Left)),
        (true, true) => Some(BinaryOp::AddrSub(BinaryAddrPos::Both)),
        (false, true) => None,
    }
}

/// The operator of a binary token other than `+` and `-`.
pub open spec fn plain_op(k: Kind) -> BinaryOp {
    match k {
        Kind::Star => BinaryOp::Mul,
        Kind::Slash => BinaryOp::Div,
        Kind::Equal => BinaryOp::Equal,
        Kind::NotEqual => BinaryOp::NotEqual,
        Kind::Less => BinaryOp::Less,
        Kind::LessEqual => BinaryOp::LessEqual,
        Kind::Great => BinaryOp::Great,
        _ => BinaryOp::GreatEqual,
    }
}

/// The error for `pointer + pointer` or `integer - pointer` at `tok`.
pub open spec fn pointer_error(tok: TokenView) -> SErrorView {
    SErrorView { pos: tok.loc.unwrap().start.pos, error: SyntaxErrorView::IllegalPointerArith(tok) }
}

/// The node for `l tok r` spanning `loc`, or the error for an illegal
/// pointer combination.
pub open spec fn combine(tok: TokenView, l: ExprView, r: ExprView, loc: Loc) -> Result<ExprView, SErrorView> {
    let op = if tok.kind is Plus {
        add_op(l, r)
    } else if tok.kind is Minus {
        sub_op(l, r)
    } else {
        Some(plain_op(tok.kind))
    };
    match op {
        Some(op) => Ok(ExprView::Binary { loc, left: Box::new(l), op, right: Box::new(r) }),
        None => Err(pointer_error(tok)),
    }
}

/// A variable: the current token is a name; it gets its slot.
pub open spec fn p_ident(s: StateView) -> PResult<ExprView> {
    let name = s.cur.kind->Name_0;
    match advance(s) {
        Ok(s1) => Ok(
            (
                ExprView::Ident {
                    loc: finish_loc(s1, cur_start(s)),
                    name,
                    offset: slot_of(s1.locals, name) as usize,
                },
                StateView { locals: declare(s1.locals, name), ..s1 },
            ),
        ),
        Err(e) => Err(e),
    }
}

/// A literal: the current token is a number.
pub open spec fn p_literal(s: StateView) -> PResult<ExprView> {
    match advance(s) {
        Ok(s1) => Ok(
            (ExprView::Literal { loc: finish_loc(s1, cur_start(s)), num: s.cur.kind->Int32_0 }, s1),
        ),
        Err(e) => Err(e),
    }
}

/// An expression: an assignment or an operand chain.
pub open spec fn p_expression(s: StateView) -> PResult<ExprView>
    decreases measure(s), 9int,
{
    p_maybe_assign(s)
}

/// An operand chain, followed by `= expression` when it is an assignment.
/// Only a variable or a dereference can stand left of `=`.
pub open spec fn p_maybe_assign(s: StateView) -> PResult<ExprView>
    decreases measure(s), 8int,
{
    let start = cur_start(s);
    match p_operations(s) {
        Err(e) => Err(e),
        Ok((left, s1)) => if s1.cur.kind is Assign {
            match advance(s1) {
                Err(e) => Err(e),
                Ok(s2) => if progress(s2, s) {
                    match p_maybe_assign(s2) {
                        Err(e) => Err(e),
                        Ok((right, s3)) => {
                            let loc = finish_loc(s3, start);
                            match left {
                                ExprView::Ident { loc: l, name, offset } => Ok(
                                    (
                                        ExprView::Assign {
                                            loc,
                                            left: Box::new(LeftView::Ident { loc: l, name, offset }),
                                            right: Box::new(right),
                                        },
                                        s3,
                                    ),
                                ),
                                ExprView::Deref { loc: l, argument } => Ok(
                                    (
                                        ExprView::Assign {
                                            loc,
                                            left: Box::new(LeftView::Deref { loc: l, argument }),
                                            right: Box::new(right),
                                        },
                                        s3,
                                    ),
                                ),
                                _ => Err(
                                    SErrorView {
                                        pos: left.loc().start.pos,
                                        error: SyntaxErrorView::CastWrong,
                                    },
                                ),
                            }
                        },
                    }
                } else {
                    Err(stuck(s))
                },
            }
        } else {
            Ok((left, s1))
        },
    }
}

/// An operand followed by binary operators and operands.
pub open spec fn p_operations(s: StateView) -> PResult<ExprView>
    decreases measure(s), 7int,
{
    match p_maybe_unary(s) {
        Err(e) => Err(e),
        Ok((e, s1)) => if no_regress(s1, s) {
            p_operation(s1, e, cur_start(s), LOOSEST)
        } else {
            Err(stuck(s))
        },
    }
}

/// Precedence climbing: extends `left`, which started at `left_start`, with
/// the operators that bind tighter than `min_prec`, left to right.
pub open spec fn p_operation(s: StateView, left: ExprView, left_start: Pos, min_prec: u16) -> PResult<
    ExprView,
>
    decreases measure(s), 6int,
{
    let tok = s.cur;
    match tok.kind.prec() {
        None => Ok((left, s)),
        Some(prec) => if prec >= min_prec {
            Ok((left, s))
        } else {
            match advance(s) {
                Err(e) => Err(e),
                Ok(s1) => if progress(s1, s) {
                    match p_maybe_unary(s1) {
                        Err(e) => Err(e),
                        Ok((first, s2)) => if progress(s2, s) {
                            match p_operation(s2, first, cur_start(s1), prec) {
                                Err(e) => Err(e),
                                Ok((right, s3)) => if progress(s3, s) {
                                    match combine(tok, left, right, finish_loc(s3, left_start)) {
                                        Err(e) => Err(e),
                                        Ok(bin) => p_operation(s3, bin, left_start, min_prec),
                                    }
                                } else {
                                    Err(stuck(s))
                                },
                            }
                        } else {
                            Err(stuck(s))
                        },
                    }
                } else {
                    Err(stuck(s))
                },
            }
        },
    }
}

/// Prefix `+`, `-`, `&` and `*`, right to left, then an atom.
pub open spec fn p_maybe_unary(s: StateView) -> PResult<ExprView>
    decreases measure(s), 5int,
{
    let k = s.cur.kind;
    if k.is_prefix() || k is And || k is Star {
        match advance(s) {
            Err(e) => Err(e),
            Ok(s1) => if progress(s1, s) {
                match p_maybe_unary(s1) {
                    Err(e) => Err(e),
                    Ok((arg, s2)) => {
                        let loc = finish_loc(s2, cur_start(s));
                        let argument = Box::new(arg);
                        Ok(
                            (
                                if k.is_prefix() {
                                    ExprView::Unary { loc, op: k, argument, prefix: true }
                                } else if k is And {
                                    ExprView::Addr { loc, argument }
                                } else {
                                    ExprView::Deref { loc, argument }
                                },
                                s2,
                            ),
                        )
                    },
                }
            } else {
                Err(stuck(s))
            },
        }
    } else {
        p_atom(s)
    }
}

/// A variable, a number, or a parenthesized expression.
pub open spec fn p_atom(s: StateView) -> PResult<ExprView>
    decreases measure(s), 4int,
{
    match s.cur.kind {
        Kind::Name(_) => p_ident(s),
        Kind::Int32(_) => p_literal(s),
        Kind::ParenL => p_paren_expr(s),
        _ => Err(unexpected_error(s.cur)),
    }
}

/// `( expression )`.
pub open spec fn p_paren_expr(s: StateView) -> PResult<ExprView>
    decreases measure(s), 3int,
{
    match expect(s, Kind::ParenL) {
        Err(e) => Err(e),
        Ok(s1) => if progress(s1, s) {
            match p_expression(s1) {
                Err(e) => Err(e),
                Ok((e, s2)) => match expect(s2, Kind::ParenR) {
                    Err(err) => Err(err),
                    Ok(s3) => Ok((e, s3)),
                },
            }
        } else {
            Err(stuck(s))
        },
    }
}

impl TokenType {
    /// The operator of a binary token other than `+` and `-`.
    pub fn binary_op(&self) -> (r: BinaryOp)
        ensures
            r == plain_op(self@),
    {
        match self {
            TokenType::Star => BinaryOp::Mul,
            TokenType::Slash => BinaryOp::Div,
            TokenType::Equal => BinaryOp::Equal,
            TokenType::NotEqual => BinaryOp::NotEqual,
            TokenType::Less => BinaryOp::Less,
            TokenType::LessEqual => BinaryOp::LessEqual,
            TokenType::Great => BinaryOp::Great,
            _ => BinaryOp::GreatEqual,
        }
    }
}

impl State {
    /// Parsing can go on from this state.
    pub open spec fn is_ready(&self) -> bool {
        self.wf() && ready(self@)
    }

    pub fn cur_token(&self) -> (r: &Token)
        ensures
            r == &self.cur,
    {
        &self.cur
    }

    pub fn last_token(&self) -> (r: &Token)
        ensures
            r == &self.last,
    {
        &self.last
    }

    pub fn cur_token_start(&self) -> (r: Pos)
        requires
            self.cur.loc is Some,
        ensures
            r == cur_start(self@),
    {
        self.cur_token().get_start()
    }

    /// The span from `start` to the end of the previous token.
    pub fn finish_loc(&self, start: Pos) -> (r: Loc)
        requires
            self.last.loc is Some,
            self.last.loc.unwrap().end is Some,
        ensures
            r == finish_loc(self@, start),
    {
        let end = self.last_token().get_end();
        Loc::new(start, end)
    }

    /// Parses an expression.
    pub fn parse_expression(&mut self) -> (r: SResult<Expr>)
        requires
            old(self).is_ready(),
        ensures
            outcome(old(self)@, final(self), &r, p_expression(old(self)@)),
        decreases measure(self@), 9int,
    {
        let _start = self.cur_token_start();
        self.parse_maybe_assign()
    }

    fn parse_maybe_assign(&mut self) -> (r: SResult<Expr>)
        requires
            old(self).is_ready(),
        ensures
            outcome(old(self)@, final(self), &r, p_maybe_assign(old(self)@)),
        decreases measure(self@), 8int,
    {
        let start = self.cur_token_start();
        let left = self.parse_operations()?;
        let tt = self.cur_token().get_type();
        if tt.assign() {
            self.next()?;
            let right = self.parse_maybe_assign()?;
            let loc = self.finish_loc(start);
            let left = match left {
                Expr::Ident(expr) => Box::new(LeftVal::Ident(expr)),
                Expr::Deref(expr) => Box::new(LeftVal::Deref(expr)),
                _ => {
                    return Err(SError::new(left.loc().get_start().pos, SyntaxError::CastWrong));
                },
            };
            Ok(Expr::Assign(AssignExpr { loc, left, right: Box::new(right) }))
        } else {
            Ok(left)
        }
    }

    #[verifier::rlimit(40)]
    fn parse_operations(&mut self) -> (r: SResult<Expr>)
        requires
            old(self).is_ready(),
        ensures
            outcome(old(self)@, final(self), &r, p_operations(old(self)@)),
        decreases measure(self@), 7int,
    {
        let start = self.cur_token_start();
        let expr = self.parse_maybe_unary()?;
        self.parse_operation(expr, start, LOOSEST)
    }

    fn parse_operation(&mut self, left: Expr, left_start: Pos, min_prec: u16) -> (r: SResult<Expr>)
        requires
            old(self).is_ready(),
        ensures
            outcome(old(self)@, final(self), &r, p_operation(old(self)@, left@, left_start, min_prec)),
        decreases measure(self@), 6int,
    {
        let token = self.cur_token().duplicate();
        let tt = token.get_type().duplicate();
        if let Some(prec) = tt.prec() {
            if prec >= min_prec {
                return Ok(left);
            }
            self.next()?;
            let right_start = self.cur_token_start();
            let right_expr = self.parse_maybe_unary()?;
            let right = Box::new(self.parse_operation(right_expr, right_start, prec)?);
            let loc = self.finish_loc(left_start);
            let left = Box::new(left);
            let expr = if let TokenType::Plus = tt {
                self.add_binary(left, token, right, loc)?
            } else if let TokenType::Minus = tt {
                self.sub_binary(left, token, right, loc)?
            } else {
                BinaryExpr { left, right, op: tt.binary_op(), loc }
            };
            self.parse_operation(Expr::Binary(expr), left_start, min_prec)
        } else {
            Ok(left)
        }
    }

    /// `left + right`, resolved by which operands bear addresses.
    fn add_binary(&self, left: Box<Expr>, token: Token, right: Box<Expr>, loc: Loc) -> (r: SResult<
        BinaryExpr,
    >)
        requires
            token.loc is Some,
        ensures
            match add_op((*left)@, (*right)@) {
                Some(op) => r matches Ok(b) && b.op == op && b.left == left && b.right == right
                    && b.loc == loc,
                None => r matches Err(e) && e@ == pointer_error(token@),
            },
    {
        let l = contain_addr(&left);
        let rr = contain_addr(&right);
        if l && rr {
            Err(SError::new(token.get_start().pos, SyntaxError::IllegalPointerArith(token)))
        } else if !l && !rr {
            Ok(BinaryExpr { left, right, op: BinaryOp::Add, loc })
        } else if l {
            Ok(BinaryExpr { left, op: BinaryOp::AddrAdd(BinaryAddrPos::Left), right, loc })
        } else {
            Ok(BinaryExpr { left, op: BinaryOp::AddrAdd(BinaryAddrPos::Right), right, loc })
        }
    }

    /// `left - right`, resolved by which operands bear addresses.
    fn sub_binary(&self, left: Box<Expr>, token: Token, right: Box<Expr>, loc: Loc) -> (r: SResult<
        BinaryExpr,
    >)
        requires
            token.loc is Some,
        ensures
            match sub_op((*left)@, (*right)@) {
                Some(op) => r matches Ok(b) && b.op == op && b.left == left && b.right == right
                    && b.loc == loc,
                None => r matches Err(e) && e@ == pointer_error(token@),
            },
    {
        let l = contain_addr(&left);
        let rr = contain_addr(&right);
        if !l && !rr {
            Ok(BinaryExpr { loc, left, op: BinaryOp::Sub, right })
        } else if l && !rr {
            Ok(BinaryExpr { loc, left, op: BinaryOp::AddrSub(BinaryAddrPos::Left), right })
        } else if l && rr {
            Ok(BinaryExpr { loc, left, op: BinaryOp::AddrSub(BinaryAddrPos::Both), right })
        } else {
            Err(SError::new(token.get_start().pos, SyntaxError::IllegalPointerArith(token)))
        }
    }

    fn parse_maybe_unary(&mut self) -> (r: SResult<Expr>)
        requires
            old(self).is_ready(),
        ensures
            outcome(old(self)@, final(self), &r, p_maybe_unary(old(self)@)),
        decreases measure(self@), 5int,
    {
        let start = self.cur_token_start();
        let tt = self.cur_token().get_type().duplicate();
        let expr = if tt.prefix() {
            self.next()?;
            let argument = self.parse_maybe_unary()?;
            let loc = self.finish_loc(start);
            Expr::Unary(UnaryExpr { loc, op: tt, argument: Box::new(argument), prefix: true })
        } else if let TokenType::And = tt {
            self.next()?;
            let argument = self.parse_maybe_unary()?;
            let loc = self.finish_loc(start);
            Expr::Addr(AddrExpr { loc, argument: Box::new(argument) })
        } else if let TokenType::Star = tt {
            self.next()?;
            let argument = self.parse_maybe_unary()?;
            let loc = self.finish_loc(start);
            Expr::Deref(DerefExpr { loc, argument: Box::new(argument) })
        } else {
            self.parse_atom()?
        };
        Ok(expr)
    }

    fn parse_atom(&mut self) -> (r: SResult<Expr>)
        requires
            old(self).is_ready(),
        ensures
            outcome(old(self)@, final(self), &r, p_atom(old(self)@)),
        decreases measure(self@), 4int,
    {
        let expr = match self.cur_token().get_type() {
            TokenType::Name(_) => Expr::Ident(self.parse_ident()?),
            TokenType::Int32(_) => Expr::Literal(self.parse_literal()?),
            TokenType::ParenL => self.parse_paren_expr()?,
            _ => {
                let token = self.cur_token();
                return self.unexpected(token);
            },
        };
        Ok(expr)
    }

    fn parse_ident(&mut self) -> (r: SResult<IdentExpr>)
        requires
            old(self).is_ready(),
            old(self)@.cur.kind is Name,
        ensures
            outcome(old(self)@, final(self), &r, p_ident(old(self)@)),
    {
        let start = self.cur_token_start();
        let name = match self.cur_token().get_type() {
            TokenType::Name(name) => name.clone(),
            _ => String::new(),
        };
        let ghost s0 = self@;
        self.next()?;
        let ghost s1 = self@;
        let offset = self.locals.offset(name.as_str());
        proof {
            reveal(crate::state::bounded);
            let w = name@;
            let e = Seq::<char>::empty();
            let l0 = s0.locals;
            let l1 = self@.locals;
            let a = crate::state::cur_start(s0).pos as int;
            let c = crate::state::cur_start(s1).pos as int;
            assert(w == s0.cur.kind->Name_0);
            assert(a + w.len() <= s0.pos <= c);
            assert(l0.len() <= a + if l0.contains(e) { 1int } else { 0int });
            if !l0.contains(w) {
                assert(l1 == l0.push(w));
                assert(l1[l0.len() as int] == w);
                if w == e {
                    assert(l1.contains(e));
                    assert(l1.len() <= c + 1);
                } else {
                    assert(w.len() >= 1) by {
                        if w.len() == 0 {
                            assert(w =~= e);
                        }
                    }
                    assert(l1.contains(e) == l0.contains(e)) by {
                        if l1.contains(e) {
                            let i = choose|i: int| 0 <= i < l1.len() && l1[i] == e;
                            assert(i < l0.len());
                            assert(l0[i] == e);
                        }
                        if l0.contains(e) {
                            let i = choose|i: int| 0 <= i < l0.len() && l0[i] == e;
                            assert(l1[i] == e);
                        }
                    }
                }
            } else {
                assert(l1 == l0);
            }
            assert(l1.len() <= c + if l1.contains(e) { 1int } else { 0int });
        }
        let expr = IdentExpr { loc: self.finish_loc(start), name, offset };
        Ok(expr)
    }

    fn parse_literal(&mut self) -> (r: SResult<Lit>)
        requires
            old(self).is_ready(),
            old(self)@.cur.kind is Int32,
        ensures
            outcome(old(self)@, final(self), &r, p_literal(old(self)@)),
    {
        let start = self.cur_token_start();
        let num = match self.cur_token().get_type() {
            TokenType::Int32(num) => num.clone(),
            _ => String::new(),
        };
        self.next()?;
        let loc = self.finish_loc(start);
        Ok(Lit::Int32(Int32Lit { loc, num }))
    }

    pub fn parse_paren_expr(&mut self) -> (r: SResult<Expr>)
        requires
            old(self).is_ready(),
        ensures
            outcome(old(self)@, final(self), &r, p_paren_expr(old(self)@)),
        decreases measure(self@), 3int,
    {
        self.expect(&TokenType::ParenL)?;
        let expr = self.parse_expression()?;
        self.expect(&TokenType::ParenR)?;
        Ok(expr)
    }
}

/// Whether `expr` yields an address.
pub fn contain_addr(expr: &Expr) -> (r: bool)
    ensures
        r == addr_bearing(expr@),
{
    if expr.is_addr() {
        true
    } else {
        match expr.as_binary() {
            Some(bin) => match bin.op {
                BinaryOp::AddrAdd(pos) | BinaryOp::AddrSub(pos) => matches!(
                    pos,
                    BinaryAddrPos::Left | BinaryAddrPos::Right
                ),
                _ => false,
            },
            None => false,
        }
    }
}

} // verus!
