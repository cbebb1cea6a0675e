//! Properties of the parser and the code generator that hold for all inputs.
use vstd::prelude::*;

use crate::ast::{BinaryAddrPos, BinaryOp, ExprView, StmtView};
use crate::code_gen::{
    gen_expr, gen_seq, gen_stmt, jump, jump_return, label, mov_imm, next_label, op_code,
};
use crate::compile::initial_state;
use crate::error::SErrorView;
use crate::expression::{addr_bearing, combine, pointer_error};
use crate::object::declare;
use crate::statement::p_program;
use crate::token::TokenView;
use crate::utils::Loc;

verus! {

/// `return N;` loads the digits of `N` as an immediate into the
/// accumulator, then jumps to the shared epilogue.
pub proof fn law_return_literal(
    frame: int,
    loc: Loc,
    lit_loc: Loc,
    num: Seq<char>,
    c: int,
    out: Seq<Seq<char>>,
)
    ensures
        gen_stmt(
            frame,
            StmtView::Return { loc, argument: Some(ExprView::Literal { loc: lit_loc, num }) },
            c,
            out,
        ) == (c, out.push(mov_imm(num)).push(jump_return())),
{
}

/// With a pointer `p` and an integer `n`, `p + n` and `n + p` scale the
/// integer by 8 before adding, `p - n` scales it before subtracting, and
/// `p - q` of two pointers divides the byte difference by 8.
pub proof fn law_pointer_arithmetic(
    plus: TokenView,
    minus: TokenView,
    p: ExprView,
    q: ExprView,
    n: ExprView,
    loc: Loc,
)
    requires
        plus.kind is Plus,
        minus.kind is Minus,
        addr_bearing(p),
        addr_bearing(q),
        !addr_bearing(n),
    ensures
        combine(plus, p, n, loc) == Ok::<ExprView, SErrorView>(
            ExprView::Binary {
                loc,
                left: Box::new(p),
                op: BinaryOp::AddrAdd(BinaryAddrPos::Left),
                right: Box::new(n),
            },
        ),
        combine(plus, n, p, loc) == Ok::<ExprView, SErrorView>(
            ExprView::Binary {
                loc,
                left: Box::new(n),
                op: BinaryOp::AddrAdd(BinaryAddrPos::Right),
                right: Box::new(p),
            },
        ),
        combine(minus, p, n, loc) == Ok::<ExprView, SErrorView>(
            ExprView::Binary {
                loc,
                left: Box::new(p),
                op: BinaryOp::AddrSub(BinaryAddrPos::Left),
                right: Box::new(n),
            },
        ),
        combine(minus, p, q, loc) == Ok::<ExprView, SErrorView>(
            ExprView::Binary {
                loc,
                left: Box::new(p),
                op: BinaryOp::AddrSub(BinaryAddrPos::Both),
                right: Box::new(q),
            },
        ),
        op_code(BinaryOp::AddrAdd(BinaryAddrPos::Left)) == seq!["imul $8, %rdi"@, "add %rdi, %rax"@],
        op_code(BinaryOp::AddrAdd(BinaryAddrPos::Right)) == seq!["imul $8, %rax"@, "add %rdi, %rax"@],
        op_code(BinaryOp::AddrSub(BinaryAddrPos::Left)) == seq!["imul $8, %rdi"@, "sub %rdi, %rax"@],
        op_code(BinaryOp::AddrSub(BinaryAddrPos::Both)) == seq![
            "sub %rdi, %rax"@,
            "mov $8, %rdi"@,
            "cqo"@,
            "idiv %rdi"@,
        ],
{
}

/// Pointer plus pointer, and integer minus pointer, are rejected with the
/// pointer-arithmetic error at the operator.
pub proof fn law_illegal_pointer_arithmetic(
    plus: TokenView,
    minus: TokenView,
    p: ExprView,
    q: ExprView,
    n: ExprView,
    loc: Loc,
)
    requires
        plus.kind is Plus,
        minus.kind is Minus,
        addr_bearing(p),
        addr_bearing(q),
        !addr_bearing(n),
    ensures
        combine(plus, p, q, loc) == Err::<ExprView, SErrorView>(pointer_error(plus)),
        combine(minus, n, p, loc) == Err::<ExprView, SErrorView>(pointer_error(minus)),
{
}

/// A name seen before keeps the table as it is; a new one adds one entry.
pub proof fn law_redeclare(names: Seq<Seq<char>>, name: Seq<char>)
    ensures
        names.contains(name) ==> declare(names, name) == names,
        declare(names, name).len() <= names.len() + 1,
        declare(declare(names, name), name) == declare(names, name),
{
    if !names.contains(name) {
        assert(declare(names, name)[names.len() as int] == name);
    }
}

/// A `for` with no test emits no conditional exit: after the label it runs
/// the body, then jumps back.
pub proof fn law_for_without_test(
    frame: int,
    loc: Loc,
    body: StmtView,
    c: int,
    out: Seq<Seq<char>>,
)
    ensures
        ({
            let l = next_label(c);
            let (c1, o1) = gen_stmt(frame, body, l, out.push(label(".L.begin."@, l)));
            gen_stmt(
                frame,
                StmtView::For { loc, init: None, test: None, update: None, body: Box::new(body) },
                c,
                out,
            ) == (c1, o1.push(jump("jmp .L.begin."@, l)).push(label(".L.end."@, l)))
        }),
{
}

/// Generating a statement never moves the label counter backwards.
pub proof fn lemma_labels_monotone(frame: int, s: StmtView, c: int, out: Seq<Seq<char>>)
    requires
        0 <= c <= usize::MAX,
    ensures
        c <= gen_stmt(frame, s, c, out).0 <= usize::MAX,
    decreases s,
{
    match s {
        StmtView::Block { body, .. } => {
            lemma_seq_labels_monotone(frame, body, c, out);
        },
        StmtView::If { test, consequent, alternate, .. } => {
            let l = next_label(c);
            let o1 = gen_expr(frame, test, out).push("cmp $0, %rax"@).push(jump("je .L.else."@, l));
            lemma_labels_monotone(frame, *consequent, l, o1);
            let (c2, o2) = gen_stmt(frame, *consequent, l, o1);
            let o3 = o2.push(jump("jmp .L.end."@, l)).push(label(".L.else."@, l));
            match alternate {
                Some(a) => {
                    lemma_labels_monotone(frame, *a, c2, o3);
                },
                None => {},
            }
        },
        StmtView::While { test, body, .. } => {
            let l = next_label(c);
            let o1 = gen_expr(frame, test, out.push(label(".L.begin."@, l))).push("cmp $0, %rax"@).push(
                jump("je .L.end."@, l),
            );
            lemma_labels_monotone(frame, *body, l, o1);
        },
        StmtView::For { init, test, update, body, .. } => {
            let l = next_label(c);
            let o1 = crate::code_gen::gen_opt(frame, init, out).push(label(".L.begin."@, l));
            let o2 = match test {
                Some(t) => gen_expr(frame, t, o1).push("cmp $0, %rax"@).push(jump("je .L.end."@, l)),
                None => o1,
            };
            lemma_labels_monotone(frame, *body, l, o2);
        },
        _ => {},
    }
}

/// Generating statements in order never moves the label counter backwards.
pub proof fn lemma_seq_labels_monotone(frame: int, body: Seq<StmtView>, c: int, out: Seq<Seq<char>>)
    requires
        0 <= c <= usize::MAX,
    ensures
        c <= gen_seq(frame, body, c, out).0 <= usize::MAX,
    decreases body,
{
    if body.len() > 0 {
        broadcast use vstd::seq::axiom_seq_index_decreases, vstd::seq::axiom_seq_subrange_decreases;

        lemma_labels_monotone(frame, body[0], c, out);
        let (c1, o1) = gen_stmt(frame, body[0], c, out);
        lemma_seq_labels_monotone(frame, body.subrange(1, body.len() as int), c1, o1);
    }
}

/// Two `if` statements in sequence take two different label numbers from
/// the one counter, the second larger than the first, while the counter has
/// room.
pub proof fn law_sibling_labels(frame: int, a: StmtView, b: StmtView, c: int, out: Seq<Seq<char>>)
    requires
        a is If,
        b is If,
        0 <= c <= usize::MAX,
        gen_stmt(frame, a, c, out).0 < usize::MAX,
    ensures
        next_label(c) < next_label(gen_stmt(frame, a, c, out).0),
{
    lemma_labels_monotone(frame, a, c, out);
    match a {
        StmtView::If { test, consequent, alternate, .. } => {
            let l = next_label(c);
            let o1 = gen_expr(frame, test, out).push("cmp $0, %rax"@).push(jump("je .L.else."@, l));
            lemma_labels_monotone(frame, *consequent, l, o1);
            let (c2, o2) = gen_stmt(frame, *consequent, l, o1);
            let o3 = o2.push(jump("jmp .L.end."@, l)).push(label(".L.else."@, l));
            match alternate {
                Some(x) => {
                    lemma_labels_monotone(frame, *x, c2, o3);
                },
                None => {},
            }
        },
        _ => {},
    }
}

/// Parsing is a function of the text: the same text gives the same tree,
/// slots included, or the same error.
pub proof fn law_parse_deterministic(a: Seq<char>, b: Seq<char>)
    requires
        a == b,
    ensures
        p_program(initial_state(a)) == p_program(initial_state(b)),
{
}

} // verus!
