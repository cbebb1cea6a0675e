//! Code generation: the syntax tree lowered to x86-64 assembly lines for a
//! stack machine on `%rax` (the accumulator) and `%rdi` (the secondary).
use vstd::prelude::*;
use vstd::string::*;

use crate::ast::{
    AddrExpr, AssignExpr, BinaryAddrPos, BinaryExpr, BinaryOp, BlockStmt, DerefExpr, EmptyStmt,
    Expr, ExprStmt, ExprView, ForStmt, IdentExpr, IfStmt, Int32Lit, LeftVal, LeftView, Lit, Program,
    ReturnStmt, Stmt, StmtView, UnaryExpr, WhileStmt,
};
use crate::token::TokenType;

verus! {

pub open spec fn digit_char(d: int) -> char {
    if d == 0 {
        '0'
    } else if d == 1 {
        '1'
    } else if d == 2 {
        '2'
    } else if d == 3 {
        '3'
    } else if d == 4 {
        '4'
    } else if d == 5 {
        '5'
    } else if d == 6 {
        '6'
    } else if d == 7 {
        '7'
    } else if d == 8 {
        '8'
    } else {
        '9'
    }
}

/// The decimal digits of `n`.
pub open spec fn decimal(n: nat) -> Seq<char>
    decreases n,
{
    if n < 10 {
        seq![digit_char(n as int)]
    } else {
        decimal(n / 10) + seq![digit_char((n % 10) as int)]
    }
}

/// `n` in decimal, with a `-` when it is negative.
pub open spec fn signed_decimal(n: int) -> Seq<char> {
    if n < 0 {
        seq!['-'] + decimal((-n) as nat)
    } else {
        decimal(n as nat)
    }
}

/// The offset from the frame base of the variable in slot `offset`.
pub open spec fn ident_address(frame: int, offset: int) -> int {
    offset * 8 - frame
}

/// Loads an immediate into the accumulator.
pub open spec fn mov_imm(num: Seq<char>) -> Seq<char> {
    "mov $"@ + num + ", %rax"@
}

/// Loads the address `addr` from the frame base into the accumulator.
pub open spec fn lea(addr: int) -> Seq<char> {
    "lea "@ + signed_decimal(addr) + "(%rbp), %rax"@
}

/// A label line `prefix` + number + `:`.
pub open spec fn label(prefix: Seq<char>, c: int) -> Seq<char> {
    prefix + decimal(c as nat) + ":"@
}

/// A jump to a numbered label: `prefix` + number.
pub open spec fn jump(prefix: Seq<char>, c: int) -> Seq<char> {
    prefix + decimal(c as nat)
}

pub open spec fn load() -> Seq<char> {
    "mov (%rax), %rax"@
}

pub open spec fn push_acc() -> Seq<char> {
    "push %rax"@
}

pub open spec fn pop_rdi() -> Seq<char> {
    "pop %rdi"@
}

pub open spec fn test_zero() -> Seq<char> {
    "cmp $0, %rax"@
}

pub open spec fn jump_return() -> Seq<char> {
    "jmp .L.return"@
}

/// A comparison: the flag that `set` names, as 0 or 1 in the accumulator.
pub open spec fn compare(set: Seq<char>) -> Seq<Seq<char>> {
    seq!["cmp %rdi, %rax"@, set, "movzb %al, %rax"@]
}

/// What combines the accumulator (left operand) and the secondary (right
/// operand) for `op`. Pointer arithmetic scales the integer side by 8; a
/// pointer difference is divided by 8.
pub open spec fn op_code(op: BinaryOp) -> Seq<Seq<char>> {
    match op {
        BinaryOp::Add => seq!["add %rdi, %rax"@],
        BinaryOp::AddrAdd(BinaryAddrPos::Right) => seq!["imul $8, %rax"@, "add %rdi, %rax"@],
        BinaryOp::AddrAdd(_) => seq!["imul $8, %rdi"@, "add %rdi, %rax"@],
        BinaryOp::Sub => seq!["sub %rdi, %rax"@],
        BinaryOp::AddrSub(BinaryAddrPos::Both) => seq![
            "sub %rdi, %rax"@,
            "mov $8, %rdi"@,
            "cqo"@,
            "idiv %rdi"@,
        ],
        BinaryOp::AddrSub(_) => seq!["imul $8, %rdi"@, "sub %rdi, %rax"@],
        BinaryOp::Mul => seq!["imul %rdi, %rax"@],
        BinaryOp::Div => seq!["cqo"@, "idiv %rdi"@],
        BinaryOp::Equal => compare("sete %al"@),
        BinaryOp::NotEqual => compare("setne %al"@),
        BinaryOp::Less => compare("setl %al"@),
        BinaryOp::LessEqual => compare("setle %al"@),
        BinaryOp::Great => compare("setg %al"@),
        BinaryOp::GreatEqual => compare("setge %al"@),
    }
}

/// `out` without its last line, if it has one.
pub open spec fn drop_last_line(out: Seq<Seq<char>>) -> Seq<Seq<char>> {
    if out.len() > 0 {
        out.drop_last()
    } else {
        out
    }
}

/// The lines after `out` once `e` is evaluated into the accumulator, in a
/// frame of `frame` bytes. An address-of evaluates its argument and drops
/// the last line, which for a variable or a dereference is the load.
pub open spec fn gen_expr(frame: int, e: ExprView, out: Seq<Seq<char>>) -> Seq<Seq<char>>
    decreases e,
{
    match e {
        ExprView::Literal { num, .. } => out.push(mov_imm(num)),
        ExprView::Ident { offset, .. } => out.push(lea(ident_address(frame, offset as int))).push(
            load(),
        ),
        ExprView::Deref { argument, .. } => gen_expr(frame, *argument, out).push(load()),
        ExprView::Addr { argument, .. } => drop_last_line(gen_expr(frame, *argument, out)),
        ExprView::Unary { op, argument, .. } => if op is Minus {
            gen_expr(frame, *argument, out).push("neg %rax"@)
        } else {
            gen_expr(frame, *argument, out)
        },
        ExprView::Assign { left, right, .. } => {
            let target = match *left {
                LeftView::Ident { offset, .. } => out.push(lea(ident_address(frame, offset as int))),
                LeftView::Deref { argument, .. } => gen_expr(frame, *argument, out),
            };
            gen_expr(frame, *right, target.push(push_acc())).push(pop_rdi()).push(
                "mov %rax, (%rdi)"@,
            )
        },
        ExprView::Binary { left, op, right, .. } => {
            let r = gen_expr(frame, *right, out).push(push_acc());
            gen_expr(frame, *left, r).push(pop_rdi()) + op_code(op)
        },
    }
}

/// An optional expression: nothing when absent.
pub open spec fn gen_opt(frame: int, e: Option<ExprView>, out: Seq<Seq<char>>) -> Seq<Seq<char>> {
    match e {
        Some(x) => gen_expr(frame, x, out),
        None => out,
    }
}

/// The next label number after `c`; it stays at the largest `usize`.
pub open spec fn next_label(c: int) -> int {
    if c < usize::MAX {
        c + 1
    } else {
        c
    }
}

/// The label counter and the lines after `out` once `s` is generated with
/// the counter at `c`. Each `if`, `for` and `while` takes the next number.
pub open spec fn gen_stmt(frame: int, s: StmtView, c: int, out: Seq<Seq<char>>) -> (int, Seq<Seq<char>>)
    decreases s,
{
    match s {
        StmtView::Expr { expr, .. } => (c, gen_expr(frame, expr, out)),
        StmtView::Return { argument, .. } => (c, gen_opt(frame, argument, out).push(jump_return())),
        StmtView::Block { body, .. } => gen_seq(frame, body, c, out),
        StmtView::Empty { .. } => (c, out),
        StmtView::If { test, consequent, alternate, .. } => {
            let l = next_label(c);
            let o1 = gen_expr(frame, test, out).push(test_zero()).push(jump("je .L.else."@, l));
            let (c2, o2) = gen_stmt(frame, *consequent, l, o1);
            let o3 = o2.push(jump("jmp .L.end."@, l)).push(label(".L.else."@, l));
            let (c4, o4) = match alternate {
                Some(a) => gen_stmt(frame, *a, c2, o3),
                None => (c2, o3),
            };
            (c4, o4.push(label(".L.end."@, l)))
        },
        StmtView::While { test, body, .. } => {
            let l = next_label(c);
            let o1 = gen_expr(frame, test, out.push(label(".L.begin."@, l))).push(test_zero()).push(
                jump("je .L.end."@, l),
            );
            let (c2, o2) = gen_stmt(frame, *body, l, o1);
            (c2, o2.push(jump("jmp .L.begin."@, l)).push(label(".L.end."@, l)))
        },
        StmtView::For { init, test, update, body, .. } => {
            let l = next_label(c);
            let o1 = gen_opt(frame, init, out).push(label(".L.begin."@, l));
            let o2 = match test {
                Some(t) => gen_expr(frame, t, o1).push(test_zero()).push(jump("je .L.end."@, l)),
                None => o1,
            };
            let (c3, o3) = gen_stmt(frame, *body, l, o2);
            let o4 = gen_opt(frame, update, o3);
            (c3, o4.push(jump("jmp .L.begin."@, l)).push(label(".L.end."@, l)))
        },
    }
}

/// The statements of `body` generated in order.
pub open spec fn gen_seq(frame: int, body: Seq<StmtView>, c: int, out: Seq<Seq<char>>) -> (
    int,
    Seq<Seq<char>>,
)
    decreases body,
{
    if body.len() == 0 {
        (c, out)
    } else {
        proof {
            broadcast use vstd::seq::axiom_seq_index_decreases, vstd::seq::axiom_seq_subrange_decreases;
        }
        let (c1, o1) = gen_stmt(frame, body[0], c, out);
        gen_seq(frame, body.subrange(1, body.len() as int), c1, o1)
    }
}

/// The lines that open the entry function and reserve `stack_size` bytes.
pub open spec fn prologue_text(stack_size: int) -> Seq<char> {
    ".globl main\nmain:\n    push %rbp\n    mov %rsp, %rbp\n    sub $"@ + decimal(stack_size as nat)
        + ", %rsp\n        "@
}

/// The shared return label and the lines that leave the entry function.
pub open spec fn epilogue_text() -> Seq<char> {
    "\n    .L.return:\n    mov %rbp, %rsp\n    pop %rbp\n    ret"@
}

/// The generator's state: the last label number used, the lines so far, and
/// the frame size.
pub struct Context {
    count: usize,
    code: Vec<String>,
    stack_size: usize,
}

/// The mathematical value of a `Context`.
pub struct ContextView {
    pub count: int,
    pub code: Seq<Seq<char>>,
    pub stack_size: int,
}

impl View for Context {
    type V = ContextView;

    closed spec fn view(&self) -> ContextView {
        ContextView {
            count: self.count as int,
            code: self.code@.map_values(|s: String| s@),
            stack_size: self.stack_size as int,
        }
    }
}

fn digit_str(d: u128) -> (r: &'static str)
    requires
        d < 10,
    ensures
        r@ == seq![digit_char(d as int)],
{
    proof {
        reveal_strlit("0");
        reveal_strlit("1");
        reveal_strlit("2");
        reveal_strlit("3");
        reveal_strlit("4");
        reveal_strlit("5");
        reveal_strlit("6");
        reveal_strlit("7");
        reveal_strlit("8");
        reveal_strlit("9");
    }
    if d == 0 {
        "0"
    } else if d == 1 {
        "1"
    } else if d == 2 {
        "2"
    } else if d == 3 {
        "3"
    } else if d == 4 {
        "4"
    } else if d == 5 {
        "5"
    } else if d == 6 {
        "6"
    } else if d == 7 {
        "7"
    } else if d == 8 {
        "8"
    } else {
        "9"
    }
}

/// Appends the decimal digits of `n`.
fn push_decimal(out: &mut String, n: u128)
    ensures
        final(out)@ == old(out)@ + decimal(n as nat),
    decreases n,
{
    let ghost before = out@;
    if n >= 10 {
        push_decimal(out, n / 10);
    }
    out.append(digit_str(n % 10));
    proof {
        if n >= 10 {
            assert(before + decimal(n as nat) =~= before + decimal((n / 10) as nat) + seq![
                digit_char((n % 10) as int),
            ]);
        } else {
            assert(decimal(n as nat) =~= seq![digit_char((n % 10) as int)]);
        }
    }
}

/// `prefix` followed by the number `n` in decimal.
fn numbered(prefix: &str, n: i128) -> (r: String)
    requires
        n > i128::MIN,
    ensures
        r@ == prefix@ + signed_decimal(n as int),
{
    let mut s = String::from_str(prefix);
    if n < 0 {
        s.append("-");
        proof {
            reveal_strlit("-");
        }
        push_decimal(&mut s, (-n) as u128);
        proof {
            assert(s@ =~= prefix@ + signed_decimal(n as int));
        }
    } else {
        push_decimal(&mut s, n as u128);
    }
    s
}

/// `prefix`, the number `n` in decimal, then `suffix`.
fn numbered_with(prefix: &str, n: i128, suffix: &str) -> (r: String)
    requires
        n > i128::MIN,
    ensures
        r@ == prefix@ + signed_decimal(n as int) + suffix@,
{
    let mut s = numbered(prefix, n);
    s.append(suffix);
    s
}

/// The text that opens the entry function for a frame of `stack_size` bytes.
pub fn prologue(stack_size: usize) -> (r: String)
    ensures
        r@ == prologue_text(stack_size as int),
{
    numbered_with(".globl main\nmain:\n    push %rbp\n    mov %rsp, %rbp\n    sub $", stack_size as i128, ", %rsp\n        ")
}

/// The text of the shared return label and the exit sequence.
pub fn epilogue() -> (r: String)
    ensures
        r@ == epilogue_text(),
{
    String::from_str("\n    .L.return:\n    mov %rbp, %rsp\n    pop %rbp\n    ret")
}

impl Context {
    pub fn new(stack_size: usize) -> (r: Self)
        ensures
            r@ == (ContextView { count: 0, code: Seq::empty(), stack_size: stack_size as int }),
    {
        let r = Context { count: 0, code: Vec::new(), stack_size };
        proof {
            assert(r@.code =~= Seq::<Seq<char>>::empty());
        }
        r
    }

    /// The lines generated so far.
    pub fn code(&self) -> (r: &Vec<String>)
        ensures
            r@.map_values(|s: String| s@) == self@.code,
    {
        &self.code
    }

    /// Takes the next label number.
    fn count(&mut self) -> (r: usize)
        ensures
            r == next_label(old(self)@.count),
            final(self)@ == (ContextView { count: r as int, ..old(self)@ }),
    {
        if self.count < usize::MAX {
            self.count += 1;
        }
        self.count
    }

    /// Appends one line.
    fn emit(&mut self, line: String)
        ensures
            final(self)@ == (ContextView { code: old(self)@.code.push(line@), ..old(self)@ }),
    {
        self.code.push(line);
        proof {
            assert(self@.code =~= old(self)@.code.push(line@));
        }
    }

    /// Appends one fixed line.
    fn emit_str(&mut self, line: &str)
        ensures
            final(self)@ == (ContextView { code: old(self)@.code.push(line@), ..old(self)@ }),
    {
        self.emit(String::from_str(line));
    }

    pub fn statement(&mut self, stmt: &Stmt)
        ensures
            ({
                let (c, out) = gen_stmt(old(self)@.stack_size, stmt@, old(self)@.count, old(self)@.code);
                final(self)@ == (ContextView { count: c, code: out, ..old(self)@ })
            }),
        decreases stmt,
    {
        match stmt {
            Stmt::Expr(stmt) => self.expression_statement(stmt),
            Stmt::Return(stmt) => self.return_statement(stmt),
            Stmt::Block(stmt) => self.block_statement(stmt),
            Stmt::Empty(stmt) => self.empty_statement(stmt),
            Stmt::If(stmt) => self.if_statement(stmt),
            Stmt::For(stmt) => self.for_statement(stmt),
            Stmt::While(stmt) => self.while_statement(stmt),
        }
    }

    fn while_statement(&mut self, stmt: &WhileStmt)
        ensures
            ({
                let (c, out) = gen_stmt(old(self)@.stack_size, stmt@, old(self)@.count, old(self)@.code);
                final(self)@ == (ContextView { count: c, code: out, ..old(self)@ })
            }),
        decreases stmt,
    {
        let c = self.count();
        self.emit(numbered_with(".L.begin.", c as i128, ":"));
        self.expression(&stmt.test);
        self.emit_str("cmp $0, %rax");
        self.emit(numbered("je .L.end.", c as i128));
        self.statement(&stmt.body);
        self.emit(numbered("jmp .L.begin.", c as i128));
        self.emit(numbered_with(".L.end.", c as i128, ":"));
    }

    fn for_statement(&mut self, stmt: &ForStmt)
        ensures
            ({
                let (c, out) = gen_stmt(old(self)@.stack_size, stmt@, old(self)@.count, old(self)@.code);
                final(self)@ == (ContextView { count: c, code: out, ..old(self)@ })
            }),
        decreases stmt,
    {
        let c = self.count();
        if let Some(init) = &stmt.init {
            self.expression(init);
        }
        self.emit(numbered_with(".L.begin.", c as i128, ":"));
        if let Some(test) = &stmt.test {
            self.expression(test);
            self.emit_str("cmp $0, %rax");
            self.emit(numbered("je .L.end.", c as i128));
        }
        self.statement(&stmt.body);
        if let Some(update) = &stmt.update {
            self.expression(update);
        }
        self.emit(numbered("jmp .L.begin.", c as i128));
        self.emit(numbered_with(".L.end.", c as i128, ":"));
    }

    fn if_statement(&mut self, stmt: &IfStmt)
        ensures
            ({
                let (c, out) = gen_stmt(old(self)@.stack_size, stmt@, old(self)@.count, old(self)@.code);
                final(self)@ == (ContextView { count: c, code: out, ..old(self)@ })
            }),
        decreases stmt,
    {
        let c = self.count();
        self.expression(&stmt.test);
        self.emit_str("cmp $0, %rax");
        self.emit(numbered("je .L.else.", c as i128));
        self.statement(&stmt.consequent);
        self.emit(numbered("jmp .L.end.", c as i128));
        self.emit(numbered_with(".L.else.", c as i128, ":"));
        if let Some(alternate) = &stmt.alternate {
            self.statement(alternate);
        }
        self.emit(numbered_with(".L.end.", c as i128, ":"));
    }

    fn empty_statement(&mut self, _stmt: &EmptyStmt)
        ensures
            final(self)@ == old(self)@,
    {
    }

    fn block_statement(&mut self, stmt: &BlockStmt)
        ensures
            ({
                let (c, out) = gen_stmt(old(self)@.stack_size, stmt@, old(self)@.count, old(self)@.code);
                final(self)@ == (ContextView { count: c, code: out, ..old(self)@ })
            }),
        decreases stmt,
    {
        let ghost body = stmt@->Block_body;
        let ghost c0 = self@.count;
        let ghost o0 = self@.code;
        let mut i: usize = 0;
        proof {
            assert(body.subrange(0, body.len() as int) =~= body);
        }
        while i < stmt.body.len()
            invariant
                0 <= i <= stmt.body@.len(),
                body.len() == stmt.body@.len(),
                forall|j: int| 0 <= j < body.len() ==> body[j] == stmt.body@[j]@,
                self@.stack_size == old(self)@.stack_size,
                gen_seq(self@.stack_size, body, c0, o0) == gen_seq(
                    self@.stack_size,
                    body.subrange(i as int, body.len() as int),
                    self@.count,
                    self@.code,
                ),
            decreases stmt.body@.len() - i,
        {
            proof {
                broadcast use vstd::std_specs::vec::axiom_vec_index_decreases;
                assert(body.subrange(i as int, body.len() as int).subrange(1, body.len() - i) =~= body.subrange(i + 1, body.len() as int));
            }
            self.statement(&stmt.body[i]);
            i += 1;
        }
        proof {
            assert(body.subrange(i as int, body.len() as int) =~= Seq::<StmtView>::empty());
        }
    }

    fn return_statement(&mut self, stmt: &ReturnStmt)
        ensures
            ({
                let (c, out) = gen_stmt(old(self)@.stack_size, stmt@, old(self)@.count, old(self)@.code);
                final(self)@ == (ContextView { count: c, code: out, ..old(self)@ })
            }),
    {
        if let Some(expr) = &stmt.argument {
            self.expression(expr);
        }
        self.emit_str("jmp .L.return");
    }

    fn expression_statement(&mut self, stmt: &ExprStmt)
        ensures
            final(self)@ == (ContextView {
                code: gen_expr(old(self)@.stack_size, stmt.expr@, old(self)@.code),
                ..old(self)@
            }),
    {
        self.expression(&stmt.expr)
    }

    /// Evaluates `expr` into the accumulator.
    pub fn expression(&mut self, expr: &Expr)
        ensures
            final(self)@ == (ContextView {
                code: gen_expr(old(self)@.stack_size, expr@, old(self)@.code),
                ..old(self)@
            }),
        decreases expr,
    {
        match expr {
            Expr::Binary(bin) => self.binary_expression(bin),
            Expr::Literal(lit) => self.literal(lit),
            Expr::Unary(unary) => self.unary_expression(unary),
            Expr::Assign(assign) => self.assign_expression(assign),
            Expr::Ident(ident) => self.ident_expression(ident),
            Expr::Deref(deref) => self.deref_expression(deref),
            Expr::Addr(addr) => self.addr_expression(addr),
        }
    }

    fn deref_expression(&mut self, deref: &DerefExpr)
        ensures
            final(self)@ == (ContextView {
                code: gen_expr(old(self)@.stack_size, (*deref.argument)@, old(self)@.code).push(load()),
                ..old(self)@
            }),
        decreases deref,
    {
        self.expression(&deref.argument);
        self.emit_str("mov (%rax), %rax");
    }

    fn addr_expression(&mut self, addr: &AddrExpr)
        ensures
            final(self)@ == (ContextView {
                code: drop_last_line(gen_expr(old(self)@.stack_size, (*addr.argument)@, old(self)@.code)),
                ..old(self)@
            }),
        decreases addr,
    {
        self.expression(&addr.argument);
        let ghost before = self@.code;
        self.code.pop();
        proof {
            assert(self@.code =~= drop_last_line(before));
        }
    }

    /// The offset from the frame base of a variable.
    fn get_ident_address(&self, expr: &IdentExpr) -> (r: i128)
        ensures
            r == ident_address(self@.stack_size, expr.offset as int),
    {
        (expr.offset as i128) * 8 - (self.stack_size as i128)
    }

    fn ident_expression(&mut self, expr: &IdentExpr)
        ensures
            final(self)@ == (ContextView {
                code: old(self)@.code.push(lea(ident_address(old(self)@.stack_size, expr.offset as int))).push(load()),
                ..old(self)@
            }),
    {
        let address = self.get_ident_address(expr);
        self.emit(numbered_with("lea ", address, "(%rbp), %rax"));
        self.emit_str("mov (%rax), %rax");
    }

    fn assign_expression(&mut self, expr: &AssignExpr)
        ensures
            final(self)@ == (ContextView {
                code: gen_expr(old(self)@.stack_size, Expr::Assign(*expr)@, old(self)@.code),
                ..old(self)@
            }),
        decreases expr,
    {
        match &*expr.left {
            LeftVal::Ident(ident) => {
                let address = self.get_ident_address(ident);
                self.emit(numbered_with("lea ", address, "(%rbp), %rax"));
            },
            LeftVal::Deref(deref) => self.expression(&deref.argument),
        }
        self.emit_str("push %rax");
        self.expression(&expr.right);
        self.emit_str("pop %rdi");
        self.emit_str("mov %rax, (%rdi)");
    }

    fn binary_expression(&mut self, expr: &BinaryExpr)
        ensures
            final(self)@ == (ContextView {
                code: gen_expr(old(self)@.stack_size, Expr::Binary(*expr)@, old(self)@.code),
                ..old(self)@
            }),
        decreases expr,
    {
        self.expression(&expr.right);
        self.emit_str("push %rax");
        self.expression(&expr.left);
        self.emit_str("pop %rdi");
        let ghost before = self@.code;
        match expr.op {
            BinaryOp::Add => {
                self.emit_str("add %rdi, %rax");
            },
            BinaryOp::AddrAdd(pos) => {
                if let BinaryAddrPos::Right = pos {
                    self.emit_str("imul $8, %rax");
                    self.emit_str("add %rdi, %rax");
                } else {
                    self.emit_str("imul $8, %rdi");
                    self.emit_str("add %rdi, %rax");
                }
            },
            BinaryOp::Sub => {
                self.emit_str("sub %rdi, %rax");
            },
            BinaryOp::AddrSub(pos) => {
                if let BinaryAddrPos::Both = pos {
                    self.emit_str("sub %rdi, %rax");
                    self.emit_str("mov $8, %rdi");
                    self.emit_str("cqo");
                    self.emit_str("idiv %rdi");
                } else {
                    self.emit_str("imul $8, %rdi");
                    self.emit_str("sub %rdi, %rax");
                }
            },
            BinaryOp::Mul => {
                self.emit_str("imul %rdi, %rax");
            },
            BinaryOp::Div => {
                self.emit_str("cqo");
                self.emit_str("idiv %rdi");
            },
            BinaryOp::Equal => {
                self.emit_str("cmp %rdi, %rax");
                self.emit_str("sete %al");
                self.emit_str("movzb %al, %rax");
            },
            BinaryOp::NotEqual => {
                self.emit_str("cmp %rdi, %rax");
                self.emit_str("setne %al");
                self.emit_str("movzb %al, %rax");
            },
            BinaryOp::Less => {
                self.emit_str("cmp %rdi, %rax");
                self.emit_str("setl %al");
                self.emit_str("movzb %al, %rax");
            },
            BinaryOp::LessEqual => {
                self.emit_str("cmp %rdi, %rax");
                self.emit_str("setle %al");
                self.emit_str("movzb %al, %rax");
            },
            BinaryOp::Great => {
                self.emit_str("cmp %rdi, %rax");
                self.emit_str("setg %al");
                self.emit_str("movzb %al, %rax");
            },
            BinaryOp::GreatEqual => {
                self.emit_str("cmp %rdi, %rax");
                self.emit_str("setge %al");
                self.emit_str("movzb %al, %rax");
            },
        }
        proof {
            assert(self@.code =~= before + op_code(expr.op));
        }
    }

    fn literal(&mut self, lit: &Lit)
        ensures
            final(self)@ == (ContextView { code: old(self)@.code.push(mov_imm(lit@->Literal_num)), ..old(self)@ }),
    {
        match lit {
            Lit::Int32(lit) => self.int32_literal(lit),
        }
    }

    fn int32_literal(&mut self, lit: &Int32Lit)
        ensures
            final(self)@ == (ContextView { code: old(self)@.code.push(mov_imm(lit.num@)), ..old(self)@ }),
    {
        let mut s = String::from_str("mov $");
        s.append(lit.num.as_str());
        s.append(", %rax");
        self.emit(s);
    }

    fn unary_expression(&mut self, expr: &UnaryExpr)
        ensures
            final(self)@ == (ContextView {
                code: gen_expr(old(self)@.stack_size, Expr::Unary(*expr)@, old(self)@.code),
                ..old(self)@
            }),
        decreases expr,
    {
        if let TokenType::Minus = expr.op {
            self.expression(&expr.argument);
            self.emit_str("neg %rax");
        } else {
            self.expression(&expr.argument);
        }
    }
}

/// The assembly for `program`, one entry per printed chunk: the prologue,
/// each instruction line, and the epilogue.
pub fn assemble(program: &Program, context: Context) -> (r: Vec<String>)
    ensures
        ({
            let (c, out) = gen_seq(context@.stack_size, program@.body, context@.count, context@.code);
            r@.map_values(|s: String| s@) == seq![prologue_text(program.stack_size as int)] + out
                + seq![epilogue_text()]
        }),
{
    let ghost frame = context@.stack_size;
    let mut context = context;
    let ghost body = program@.body;
    let ghost c0 = context@.count;
    let ghost o0 = context@.code;
    let mut i: usize = 0;
    proof {
        assert(body.subrange(0, body.len() as int) =~= body);
    }
    while i < program.body.len()
        invariant
            0 <= i <= program.body@.len(),
            body == program@.body,
            body.len() == program.body@.len(),
            context@.stack_size == frame,
            gen_seq(context@.stack_size, body, c0, o0) == gen_seq(
                context@.stack_size,
                body.subrange(i as int, body.len() as int),
                context@.count,
                context@.code,
            ),
        decreases program.body@.len() - i,
    {
        proof {
            assert(body.subrange(i as int, body.len() as int).subrange(1, body.len() - i) =~= body.subrange(i + 1, body.len() as int));
        }
        context.statement(&program.body[i]);
        i += 1;
    }
    proof {
        assert(body.subrange(i as int, body.len() as int) =~= Seq::<StmtView>::empty());
    }
    let mut lines: Vec<String> = Vec::new();
    lines.push(prologue(program.stack_size));
    let code = context.code();
    let mut j: usize = 0;
    while j < code.len()
        invariant
            0 <= j <= code@.len(),
            lines@.map_values(|s: String| s@) =~= seq![prologue_text(program.stack_size as int)]
                + code@.map_values(|s: String| s@).subrange(0, j as int),
        decreases code@.len() - j,
    {
        let ghost prev = lines@.map_values(|s: String| s@);
        lines.push(code[j].clone());
        proof {
            assert(lines@.map_values(|s: String| s@) =~= prev.push(code@[j as int]@));
            assert(code@.map_values(|s: String| s@).subrange(0, j + 1) =~= code@.map_values(
                |s: String| s@,
            ).subrange(0, j as int).push(code@[j as int]@));
        }
        j += 1;
    }
    lines.push(epilogue());
    proof {
        assert(code@.map_values(|s: String| s@).subrange(0, j as int) =~= code@.map_values(|s: String| s@));
        assert(lines@.map_values(|s: String| s@) =~= seq![prologue_text(program.stack_size as int)] + context@.code + seq![epilogue_text()]);
    }
    lines
}

} // verus!
