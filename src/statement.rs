//! Statements and the program: the statement grammar, the consuming steps
//! that the whole parser shares, and the frame size.
use vstd::prelude::*;

pub use crate::ast::{
    BlockStmt, EmptyStmt, ExprStmt, ExprView, ForStmt, IfStmt, Program, ProgramView, ReturnStmt, Stmt,
    StmtView, WhileStmt,
};
use crate::error::SErrorView;
use crate::expression::{no_regress, outcome, p_expression, p_paren_expr, progress};
use crate::lexer::lex;
use crate::state::{
    advance, at, cur_start, eat, expect, finish_loc, lemma_advance, measure, stuck, wide, PResult,
    SResult, State, StateView,
};
use crate::token::{Kind, TokenType};
use crate::utils::{Loc, Pos};

verus! {

/// `r` and the state `new` are what the consuming step `res` from `old`
/// gives; consuming a wide token `k` makes progress.
pub open spec fn stepped(
    old: StateView,
    new: &State,
    r: &SResult<()>,
    res: Result<StateView, SErrorView>,
    k: Kind,
) -> bool {
    match res {
        Ok(s1) => {
            &&& r is Ok
            &&& new@ == s1
            &&& new.is_ready()
            &&& no_regress(s1, old)
            &&& wide(k) ==> progress(s1, old)
            &&& crate::state::cur_start(s1).pos >= old.pos
        },
        Err(e) => {
            &&& r is Err
            &&& r->Err_0@ == e
        },
    }
}

/// `value` rounded up to a multiple of `unit`.
pub open spec fn align_up(value: int, unit: int) -> int {
    (value + unit - 1) / unit * unit
}

/// The bytes of frame that `n` variables of 8 bytes take, kept 16-byte
/// aligned.
pub open spec fn frame_size(n: int) -> int {
    align_up(n * 8, 16)
}

/// An expression, or nothing where the current token is `stop`.
#[verifier::opaque]
pub open spec fn p_opt_expression(s: StateView, stop: Kind) -> PResult<Option<ExprView>> {
    if s.cur.kind == stop {
        Ok((None, s))
    } else {
        match p_expression(s) {
            Err(e) => Err(e),
            Ok((e, s1)) => Ok((Some(e), s1)),
        }
    }
}

/// A statement, chosen by its first token.
pub open spec fn p_statement(s: StateView) -> PResult<StmtView>
    decreases measure(s), 2int,
{
    let start = cur_start(s);
    match s.cur.kind {
        Kind::Return => p_return_statement(s),
        Kind::BraceL => p_block(s),
        Kind::Semi => match advance(s) {
            Err(e) => Err(e),
            Ok(s1) => Ok((StmtView::Empty { loc: finish_loc(s1, start) }, s1)),
        },
        Kind::If => p_if_statement(s),
        Kind::For => p_for_statement(s),
        Kind::While => p_while_statement(s),
        _ => match p_expression(s) {
            Err(e) => Err(e),
            Ok((e, s1)) => match expect(s1, Kind::Semi) {
                Err(err) => Err(err),
                Ok(s2) => Ok((StmtView::Expr { loc: finish_loc(s2, start), expr: e }, s2)),
            },
        },
    }
}

/// `while ( test ) body`.
pub open spec fn p_while_statement(s: StateView) -> PResult<StmtView>
    decreases measure(s), 1int,
{
    match advance(s) {
        Err(e) => Err(e),
        Ok(s1) => match expect(s1, Kind::ParenL) {
            Err(e) => Err(e),
            Ok(s2) => match p_expression(s2) {
                Err(e) => Err(e),
                Ok((test, s3)) => match expect(s3, Kind::ParenR) {
                    Err(e) => Err(e),
                    Ok(s4) => if progress(s4, s) {
                        match p_statement(s4) {
                            Err(e) => Err(e),
                            Ok((body, s5)) => Ok(
                                (
                                    StmtView::While {
                                        loc: finish_loc(s5, cur_start(s)),
                                        test,
                                        body: Box::new(body),
                                    },
                                    s5,
                                ),
                            ),
                        }
                    } else {
                        Err(stuck(s))
                    },
                },
            },
        },
    }
}

/// `for ( init ; test ; update ) body`, each of the three optional.
pub open spec fn p_for_statement(s: StateView) -> PResult<StmtView>
    decreases measure(s), 1int,
{
    match advance(s) {
        Err(e) => Err(e),
        Ok(s1) => match expect(s1, Kind::ParenL) {
            Err(e) => Err(e),
            Ok(s2) => match p_opt_expression(s2, Kind::Semi) {
                Err(e) => Err(e),
                Ok((init, s3)) => match expect(s3, Kind::Semi) {
                    Err(e) => Err(e),
                    Ok(s4) => match p_opt_expression(s4, Kind::Semi) {
                        Err(e) => Err(e),
                        Ok((test, s5)) => match expect(s5, Kind::Semi) {
                            Err(e) => Err(e),
                            Ok(s6) => match p_opt_expression(s6, Kind::ParenR) {
                                Err(e) => Err(e),
                                Ok((update, s7)) => match expect(s7, Kind::ParenR) {
                                    Err(e) => Err(e),
                                    Ok(s8) => if progress(s8, s) {
                                        match p_statement(s8) {
                                            Err(e) => Err(e),
                                            Ok((body, s9)) => Ok(
                                                (
                                                    StmtView::For {
                                                        loc: finish_loc(s9, cur_start(s)),
                                                        init,
                                                        test,
                                                        update,
                                                        body: Box::new(body),
                                                    },
                                                    s9,
                                                ),
                                            ),
                                        }
                                    } else {
                                        Err(stuck(s))
                                    },
                                },
                            },
                        },
                    },
                },
            },
        },
    }
}

/// The statements of a block up to its `}`, after those in `acc`.
pub open spec fn p_block_items(s: StateView, acc: Seq<StmtView>) -> PResult<Seq<StmtView>>
    decreases measure(s), 3int,
{
    if s.cur.kind is BraceR {
        Ok((acc, s))
    } else {
        match p_statement(s) {
            Err(e) => Err(e),
            Ok((st, s1)) => if progress(s1, s) {
                p_block_items(s1, acc.push(st))
            } else {
                Err(stuck(s))
            },
        }
    }
}

/// `{ statements }`.
pub open spec fn p_block(s: StateView) -> PResult<StmtView>
    decreases measure(s), 1int,
{
    match expect(s, Kind::BraceL) {
        Err(e) => Err(e),
        Ok(s1) => if progress(s1, s) {
            match p_block_items(s1, Seq::empty()) {
                Err(e) => Err(e),
                Ok((body, s2)) => match advance(s2) {
                    Err(e) => Err(e),
                    Ok(s3) => Ok((StmtView::Block { loc: finish_loc(s3, cur_start(s)), body }, s3)),
                },
            }
        } else {
            Err(stuck(s))
        },
    }
}

/// `if ( test ) consequent`, with an optional `else alternate`.
pub open spec fn p_if_statement(s: StateView) -> PResult<StmtView>
    decreases measure(s), 1int,
{
    match advance(s) {
        Err(e) => Err(e),
        Ok(s1) => match p_paren_expr(s1) {
            Err(e) => Err(e),
            Ok((test, s2)) => if progress(s2, s) {
                match p_statement(s2) {
                    Err(e) => Err(e),
                    Ok((consequent, s3)) => match eat(s3, Kind::Else) {
                        Err(e) => Err(e),
                        Ok((true, s4)) => if progress(s4, s) {
                            match p_statement(s4) {
                                Err(e) => Err(e),
                                Ok((alternate, s5)) => Ok(
                                    (
                                        StmtView::If {
                                            loc: finish_loc(s5, cur_start(s)),
                                            test,
                                            consequent: Box::new(consequent),
                                            alternate: Some(Box::new(alternate)),
                                        },
                                        s5,
                                    ),
                                ),
                            }
                        } else {
                            Err(stuck(s))
                        },
                        Ok((false, s4)) => Ok(
                            (
                                StmtView::If {
                                    loc: finish_loc(s4, cur_start(s)),
                                    test,
                                    consequent: Box::new(consequent),
                                    alternate: None,
                                },
                                s4,
                            ),
                        ),
                    },
                }
            } else {
                Err(stuck(s))
            },
        },
    }
}

/// `return ;` or `return expression ;`.
#[verifier::opaque]
pub open spec fn p_return_statement(s: StateView) -> PResult<StmtView> {
    match advance(s) {
        Err(e) => Err(e),
        Ok(s1) => match eat(s1, Kind::Semi) {
            Err(e) => Err(e),
            Ok((true, s2)) => Ok(
                (StmtView::Return { loc: finish_loc(s2, cur_start(s)), argument: None }, s2),
            ),
            Ok((false, s2)) => match p_expression(s2) {
                Err(e) => Err(e),
                Ok((e, s3)) => match expect(s3, Kind::Semi) {
                    Err(err) => Err(err),
                    Ok(s4) => Ok(
                        (
                            StmtView::Return { loc: finish_loc(s4, cur_start(s)), argument: Some(e) },
                            s4,
                        ),
                    ),
                },
            },
        },
    }
}

/// The statements up to the end of the source, after those in `acc`.
pub open spec fn p_top_level(s: StateView, acc: Seq<StmtView>) -> PResult<Seq<StmtView>>
    decreases measure(s),
{
    if s.cur.kind is Eof {
        Ok((acc, s))
    } else {
        match p_statement(s) {
            Err(e) => Err(e),
            Ok((st, s1)) => if progress(s1, s) {
                p_top_level(s1, acc.push(st))
            } else {
                Err(stuck(s))
            },
        }
    }
}

/// The whole program read from state `s`: the statements up to the end of
/// the source, and a frame of 8 bytes for each distinct variable name.
pub open spec fn p_program(s: StateView) -> Result<ProgramView, SErrorView> {
    match lex(s.input, s.pos) {
        Err(e) => Err(e),
        Ok((t, e)) => match p_top_level(StateView { cur: t, last: t, pos: e, ..s }, Seq::empty()) {
            Err(err) => Err(err),
            Ok((body, s2)) => Ok(
                ProgramView {
                    loc: Loc { start: at(s.pos), end: Some(at(s2.pos)) },
                    body,
                    stack_size: frame_size(s2.locals.len() as int) as usize,
                },
            ),
        },
    }
}

/// `offset` rounded up to a multiple of `unit`.
pub fn align(offset: usize, unit: usize) -> (r: usize)
    requires
        unit > 0,
        offset + unit - 1 <= usize::MAX,
    ensures
        r == align_up(offset as int, unit as int),
{
    proof {
        assert((offset + unit - 1) / (unit as int) * (unit as int) <= offset + unit - 1)
            by (nonlinear_arith)
            requires
                unit > 0,
                offset + unit - 1 >= 0,
        ;
    }
    (offset + (unit - 1)) / unit * unit
}

impl State {
    /// Consumes the current token.
    pub fn next(&mut self) -> (r: SResult<()>)
        requires
            old(self).is_ready(),
        ensures
            stepped(old(self)@, final(self), &r, advance(old(self)@), old(self)@.cur.kind),
    {
        proof {
            lemma_advance(self@);
        }
        self.last = self.cur.duplicate();
        self.next_token()
    }

    /// Consumes the current token if it is `expected`, and says whether it did.
    pub fn eat(&mut self, expected: &TokenType) -> (r: SResult<bool>)
        requires
            old(self).is_ready(),
        ensures
            outcome(old(self)@, final(self), &r, eat(old(self)@, expected@)),
            r matches Ok(true) ==> (wide(expected@) ==> progress(final(self)@, old(self)@)),
            r matches Ok(true) ==> crate::state::cur_start(final(self)@).pos >= old(self)@.pos,
    {
        let token = self.cur_token();
        let actual = token.get_type();
        if actual.same(expected) {
            self.next()?;
            Ok(true)
        } else {
            Ok(false)
        }
    }

    /// Consumes the current token, which must be `expected`.
    pub fn expect(&mut self, expected: &TokenType) -> (r: SResult<()>)
        requires
            old(self).is_ready(),
        ensures
            stepped(old(self)@, final(self), &r, expect(old(self)@, expected@), expected@),
    {
        if self.eat(expected)? {
            Ok(())
        } else {
            let token = self.cur_token();
            self.unexpected(token)
        }
    }
}

impl State {
    /// Parses the whole source into a program.
    pub fn parse(&mut self) -> (r: SResult<Program>)
        requires
            old(self).wf(),
            old(self)@.locals.len() == 0,
        ensures
            match p_program(old(self)@) {
                Ok(p) => r matches Ok(prog) && prog@ == p,
                Err(e) => r matches Err(err) && err@ == e,
            },
    {
        let start = self.cur_pos();
        proof {
            crate::lexer::lemma_lex_bounds(self@.input, self@.pos);
        }
        self.next_token()?;
        self.last = self.cur.duplicate();
        proof {
            reveal(crate::state::bounded);
            assert(self@.locals =~= Seq::<Seq<char>>::empty());
        }
        let program = self.parse_top_level(start)?;
        Ok(program)
    }

    #[verifier::rlimit(60)]
    #[verifier::spinoff_prover]
    fn parse_top_level(&mut self, start: Pos) -> (r: SResult<Program>)
        requires
            old(self).is_ready(),
        ensures
            match p_top_level(old(self)@, Seq::empty()) {
                Ok((body, s)) => r matches Ok(prog) && prog@ == (ProgramView {
                    loc: Loc { start, end: Some(at(s.pos)) },
                    body,
                    stack_size: frame_size(s.locals.len() as int) as usize,
                }),
                Err(e) => r matches Err(err) && err@ == e,
            },
    {
        let mut body: Vec<Stmt> = Vec::new();
        let ghost s0 = self@;
        proof {
            assert(crate::ast::stmt::stmts_view(body@) =~= Seq::<StmtView>::empty());
        }
        while !self.cur_token().is_eof()
            invariant
                s0 == old(self)@,
                self.is_ready(),
                p_top_level(s0, Seq::empty()) == p_top_level(self@, crate::ast::stmt::stmts_view(body@)),
            decreases measure(self@),
        {
            let ghost before = self@;
            let ghost acc = crate::ast::stmt::stmts_view(body@);
            let stmt = match self.parse_statement() {
                Ok(stmt) => stmt,
                Err(e) => {
                    proof {
                        assert(p_top_level(before, acc) == Err::<(Seq<StmtView>, StateView), SErrorView>(e@));
                    }
                    return Err(e);
                },
            };
            proof {
                assert(crate::ast::stmt::stmts_view(body@.push(stmt)) =~= crate::ast::stmt::stmts_view(body@).push(stmt@));
            }
            body.push(stmt);
        }
        proof {
            reveal(crate::state::bounded);
        }
        let n = self.locals.size();
        let stack_size = align(n * 8, 16);
        Ok(Program { loc: Loc::new(start, self.cur_pos()), body, stack_size })
    }

    /// Parses a statement.
    #[verifier::rlimit(60)]
    #[verifier::spinoff_prover]
    pub fn parse_statement(&mut self) -> (r: SResult<Stmt>)
        requires
            old(self).is_ready(),
        ensures
            outcome(old(self)@, final(self), &r, p_statement(old(self)@)),
            r is Ok ==> progress(final(self)@, old(self)@),
        decreases measure(self@), 2int,
    {
        let start = self.cur_token_start();
        let tt = self.cur_token().get_type().duplicate();
        let stmt = match tt {
            TokenType::Return => {
                let stmt = self.parse_return_statement()?;
                Stmt::Return(stmt)
            },
            TokenType::BraceL => {
                let stmt = self.parse_block()?;
                Stmt::Block(stmt)
            },
            TokenType::Semi => {
                self.next()?;
                let loc = self.finish_loc(start);
                Stmt::Empty(EmptyStmt { loc })
            },
            TokenType::If => Stmt::If(self.parse_if_statement()?),
            TokenType::For => Stmt::For(self.parse_for_statement()?),
            TokenType::While => Stmt::While(self.parse_while_statement()?),
            _ => {
                let expr = self.parse_expression()?;
                self.expect(&TokenType::Semi)?;
                Stmt::Expr(ExprStmt { loc: self.finish_loc(start), expr })
            },
        };
        Ok(stmt)
    }

    #[verifier::rlimit(60)]
    #[verifier::spinoff_prover]
    fn parse_while_statement(&mut self) -> (r: SResult<WhileStmt>)
        requires
            old(self).is_ready(),
            wide(old(self)@.cur.kind),
        ensures
            outcome(old(self)@, final(self), &r, p_while_statement(old(self)@)),
            r is Ok ==> progress(final(self)@, old(self)@),
        decreases measure(self@), 1int,
    {
        let start = self.cur_token_start();
        self.next()?;
        self.expect(&TokenType::ParenL)?;
        let test = self.parse_expression()?;
        self.expect(&TokenType::ParenR)?;
        let body = Box::new(self.parse_statement()?);
        let loc = self.finish_loc(start);
        Ok(WhileStmt { loc, test, body })
    }

    #[verifier::rlimit(60)]
    #[verifier::spinoff_prover]
    fn parse_for_statement(&mut self) -> (r: SResult<ForStmt>)
        requires
            old(self).is_ready(),
            wide(old(self)@.cur.kind),
        ensures
            outcome(old(self)@, final(self), &r, p_for_statement(old(self)@)),
            r is Ok ==> progress(final(self)@, old(self)@),
        decreases measure(self@), 1int,
    {
        proof {
            reveal(p_opt_expression);
        }
        let start = self.cur_token_start();
        self.next()?;
        self.expect(&TokenType::ParenL)?;
        let init = if let TokenType::Semi = self.cur_token().get_type() {
            None
        } else {
            Some(self.parse_expression()?)
        };
        self.expect(&TokenType::Semi)?;
        let test = if let TokenType::Semi = self.cur_token().get_type() {
            None
        } else {
            Some(self.parse_expression()?)
        };
        self.expect(&TokenType::Semi)?;
        let update = if let TokenType::ParenR = self.cur_token().get_type() {
            None
        } else {
            Some(self.parse_expression()?)
        };
        self.expect(&TokenType::ParenR)?;
        let body = Box::new(self.parse_statement()?);
        Ok(ForStmt { loc: self.finish_loc(start), init, test, update, body })
    }

    #[verifier::rlimit(60)]
    #[verifier::spinoff_prover]
    fn parse_block(&mut self) -> (r: SResult<BlockStmt>)
        requires
            old(self).is_ready(),
        ensures
            outcome(old(self)@, final(self), &r, p_block(old(self)@)),
            r is Ok ==> progress(final(self)@, old(self)@),
        decreases measure(self@), 1int,
    {
        let mut body: Vec<Stmt> = Vec::new();
        let start = self.cur_token_start();
        self.expect(&TokenType::BraceL)?;
        let ghost s1 = self@;
        proof {
            assert(crate::ast::stmt::stmts_view(body@) =~= Seq::<StmtView>::empty());
        }
        while !matches!(self.cur_token().get_type(), TokenType::BraceR)
            invariant
                expect(old(self)@, Kind::BraceL) == Ok::<StateView, SErrorView>(s1),
                progress(s1, old(self)@),
                start == cur_start(old(self)@),
                self.is_ready(),
                no_regress(self@, s1),
                progress(self@, old(self)@),
                p_block_items(s1, Seq::empty()) == p_block_items(self@, crate::ast::stmt::stmts_view(body@)),
            decreases measure(self@),
        {
            let ghost before = self@;
            let ghost acc = crate::ast::stmt::stmts_view(body@);
            let stmt = match self.parse_statement() {
                Ok(stmt) => stmt,
                Err(e) => {
                    proof {
                        assert(p_block_items(before, acc) == Err::<(Seq<StmtView>, StateView), SErrorView>(e@));
                    }
                    return Err(e);
                },
            };
            proof {
                assert(crate::ast::stmt::stmts_view(body@.push(stmt)) =~= crate::ast::stmt::stmts_view(body@).push(stmt@));
            }
            body.push(stmt);
        }
        self.next()?;
        let b = BlockStmt { loc: self.finish_loc(start), body };
        proof {
            assert(b@->Block_body =~= crate::ast::stmt::stmts_view(b.body@));
        }
        Ok(b)
    }

    #[verifier::rlimit(60)]
    #[verifier::spinoff_prover]
    fn parse_if_statement(&mut self) -> (r: SResult<IfStmt>)
        requires
            old(self).is_ready(),
            wide(old(self)@.cur.kind),
        ensures
            outcome(old(self)@, final(self), &r, p_if_statement(old(self)@)),
            r is Ok ==> progress(final(self)@, old(self)@),
        decreases measure(self@), 1int,
    {
        let start = self.cur_token_start();
        self.next()?;
        let test = self.parse_paren_expr()?;
        let consequent = Box::new(self.parse_statement()?);
        let alternate = if self.eat(&TokenType::Else)? {
            Some(Box::new(self.parse_statement()?))
        } else {
            None
        };
        Ok(IfStmt { loc: self.finish_loc(start), test, consequent, alternate })
    }

    #[verifier::rlimit(60)]
    #[verifier::spinoff_prover]
    fn parse_return_statement(&mut self) -> (r: SResult<ReturnStmt>)
        requires
            old(self).is_ready(),
            wide(old(self)@.cur.kind),
        ensures
            outcome(old(self)@, final(self), &r, p_return_statement(old(self)@)),
            r is Ok ==> progress(final(self)@, old(self)@),
    {
        proof {
            reveal(p_return_statement);
        }
        let start = self.cur_token_start();
        self.next()?;
        let stmt = if self.eat(&TokenType::Semi)? {
            ReturnStmt { loc: self.finish_loc(start), argument: None }
        } else {
            let argument = self.parse_expression()?;
            self.expect(&TokenType::Semi)?;
            ReturnStmt { loc: self.finish_loc(start), argument: Some(argument) }
        };
        Ok(stmt)
    }
}

} // verus!
