use minicc::ast::{BinaryAddrPos, BinaryOp, Expr, LeftVal, Stmt};
use minicc::compile::process;
use minicc::error::SyntaxError;
use minicc::state::State;

fn lines(src: &str) -> Vec<String> {
    process(src).unwrap()
}

fn body(src: &str) -> Vec<String> {
    let all = lines(src);
    all[1..all.len() - 1].to_vec()
}

fn parse(src: &str) -> minicc::ast::Program {
    let mut state = State::new(src.to_string());
    state.parse().unwrap()
}

#[test]
fn tttt() {
    process("{ &y-2+1; }").unwrap();
}

#[test]
fn return_literal_loads_immediate() {
    let all = lines("return 42;");
    assert_eq!(
        all,
        vec![
            ".globl main\nmain:\n    push %rbp\n    mov %rsp, %rbp\n    sub $0, %rsp\n        ".to_string(),
            "mov $42, %rax".to_string(),
            "jmp .L.return".to_string(),
            "\n    .L.return:\n    mov %rbp, %rsp\n    pop %rbp\n    ret".to_string(),
        ]
    );
}

#[test]
fn return_large_literal_keeps_digits() {
    assert_eq!(body("return 2147483647;"), vec!["mov $2147483647, %rax", "jmp .L.return"]);
}

#[test]
fn multiply_binds_tighter_than_add() {
    assert_eq!(body("1+2*3;"), body("1+(2*3);"));
    assert_eq!(body("2*3+1;"), body("(2*3)+1;"));
    assert_ne!(body("1+2*3;"), body("(1+2)*3;"));
    let program = parse("1+2*3;");
    match &program.body[0] {
        Stmt::Expr(s) => match &s.expr {
            Expr::Binary(b) => {
                assert_eq!(b.op, BinaryOp::Add);
                match &*b.right {
                    Expr::Binary(r) => assert_eq!(r.op, BinaryOp::Mul),
                    _ => panic!("right operand is not a product"),
                }
            }
            _ => panic!("not a binary expression"),
        },
        _ => panic!("not an expression statement"),
    }
}

#[test]
fn binary_code_order() {
    assert_eq!(
        body("1+2*3;"),
        vec![
            "mov $3, %rax",
            "push %rax",
            "mov $2, %rax",
            "pop %rdi",
            "imul %rdi, %rax",
            "push %rax",
            "mov $1, %rax",
            "pop %rdi",
            "add %rdi, %rax",
        ]
    );
}

#[test]
fn subtraction_is_left_associative() {
    let program = parse("5-2-1;");
    match &program.body[0] {
        Stmt::Expr(s) => match &s.expr {
            Expr::Binary(b) => {
                assert_eq!(b.op, BinaryOp::Sub);
                assert!(matches!(&*b.left, Expr::Binary(_)));
                assert!(matches!(&*b.right, Expr::Literal(_)));
            }
            _ => panic!("not a binary expression"),
        },
        _ => panic!("not an expression statement"),
    }
}

#[test]
fn assignment_chains_to_the_right() {
    let program = parse("a = b = 3; return a;");
    match &program.body[0] {
        Stmt::Expr(s) => match &s.expr {
            Expr::Assign(a) => {
                assert!(matches!(&*a.left, LeftVal::Ident(i) if i.name == "a" && i.offset == 0));
                match &*a.right {
                    Expr::Assign(b) => {
                        assert!(matches!(&*b.left, LeftVal::Ident(i) if i.name == "b" && i.offset == 1));
                        assert!(matches!(&*b.right, Expr::Literal(_)));
                    }
                    _ => panic!("inner assignment missing"),
                }
            }
            _ => panic!("not an assignment"),
        },
        _ => panic!("not an expression statement"),
    }
    assert_eq!(
        body("a = b = 3; return a;"),
        vec![
            "lea -16(%rbp), %rax",
            "push %rax",
            "lea -8(%rbp), %rax",
            "push %rax",
            "mov $3, %rax",
            "pop %rdi",
            "mov %rax, (%rdi)",
            "pop %rdi",
            "mov %rax, (%rdi)",
            "lea -16(%rbp), %rax",
            "mov (%rax), %rax",
            "jmp .L.return",
        ]
    );
}

#[test]
fn pointer_plus_integer_scales_integer() {
    let left = body("&x + 2;");
    assert_eq!(&left[left.len() - 2..], &["imul $8, %rdi", "add %rdi, %rax"]);
    let right = body("2 + &x;");
    assert_eq!(&right[right.len() - 2..], &["imul $8, %rax", "add %rdi, %rax"]);
}

#[test]
fn pointer_minus_integer_scales_integer() {
    let code = body("&x - 2;");
    assert_eq!(&code[code.len() - 2..], &["imul $8, %rdi", "sub %rdi, %rax"]);
}

#[test]
fn pointer_difference_counts_elements() {
    let code = body("&x - &y;");
    assert_eq!(&code[code.len() - 4..], &["sub %rdi, %rax", "mov $8, %rdi", "cqo", "idiv %rdi"]);
    let program = parse("&x - &y;");
    match &program.body[0] {
        Stmt::Expr(s) => match &s.expr {
            Expr::Binary(b) => assert_eq!(b.op, BinaryOp::AddrSub(BinaryAddrPos::Both)),
            _ => panic!("not a binary expression"),
        },
        _ => panic!("not an expression statement"),
    }
}

#[test]
fn address_of_variable_drops_the_load() {
    assert_eq!(body("&x;"), vec!["lea -16(%rbp), %rax"]);
    assert_eq!(body("*&x;"), vec!["lea -16(%rbp), %rax", "mov (%rax), %rax"]);
}

#[test]
fn pointer_plus_pointer_is_rejected() {
    let err = process("&x + &y;").unwrap_err();
    assert!(matches!(err.error, SyntaxError::IllegalPointerArith(_)));
    assert_eq!(err.pos, 3);
}

#[test]
fn integer_minus_pointer_is_rejected() {
    let err = process("1 - &x;").unwrap_err();
    assert!(matches!(err.error, SyntaxError::IllegalPointerArith(_)));
    assert_eq!(err.pos, 2);
}

#[test]
fn assignment_to_literal_is_rejected() {
    let err = process("1 = x;").unwrap_err();
    assert!(matches!(err.error, SyntaxError::CastWrong));
    assert_eq!(err.pos, 0);
}

#[test]
fn missing_paren_is_unexpected_token() {
    let err = process("(1;").unwrap_err();
    assert!(matches!(err.error, SyntaxError::UnexpectedToken(_)));
}

#[test]
fn lone_bang_is_unexpected_char() {
    let err = process("1 ! 2;").unwrap_err();
    assert!(matches!(err.error, SyntaxError::UnexpectedChar));
    assert_eq!(err.pos, 4);
}

#[test]
fn frame_counts_distinct_names() {
    assert_eq!(parse("1;").stack_size, 0);
    assert_eq!(parse("a;").stack_size, 16);
    assert_eq!(parse("a; b;").stack_size, 16);
    assert_eq!(parse("a; b; c;").stack_size, 32);
    assert_eq!(parse("a; b; a; c; b; a;").stack_size, 32);
}

#[test]
fn if_else_reaches_else_branch_code() {
    assert_eq!(
        body("if (0) return 1; else return 2;"),
        vec![
            "mov $0, %rax",
            "cmp $0, %rax",
            "je .L.else.1",
            "mov $1, %rax",
            "jmp .L.return",
            "jmp .L.end.1",
            ".L.else.1:",
            "mov $2, %rax",
            "jmp .L.return",
            ".L.end.1:",
        ]
    );
}

#[test]
fn for_without_test_has_no_exit_jump() {
    assert_eq!(
        body("for (;;) { return 1; }"),
        vec![".L.begin.1:", "mov $1, %rax", "jmp .L.return", "jmp .L.begin.1", ".L.end.1:"]
    );
}

#[test]
fn while_loop_layout() {
    assert_eq!(
        body("while (1) ;"),
        vec![".L.begin.1:", "mov $1, %rax", "cmp $0, %rax", "je .L.end.1", "jmp .L.begin.1", ".L.end.1:"]
    );
}

#[test]
fn sibling_ifs_take_distinct_labels() {
    let code = body("if (1) 1; if (2) 2;");
    assert!(code.contains(&".L.else.1:".to_string()));
    assert!(code.contains(&".L.else.2:".to_string()));
    assert!(code.contains(&"je .L.else.2".to_string()));
    let code = body("while (1) if (1) 1; for (;;) 2;");
    assert!(code.contains(&".L.begin.1:".to_string()));
    assert!(code.contains(&".L.else.2:".to_string()));
    assert!(code.contains(&".L.begin.3:".to_string()));
}

#[test]
fn parsing_twice_gives_the_same_tree() {
    let src = "a = 1; { b = a * 2; if (b > 1) return &a - &b; } for (c = 0; c < 3; c = c + 1) a;";
    let first = format!("{:?}", parse(src));
    let second = format!("{:?}", parse(src));
    assert_eq!(first, second);
}

#[test]
fn comparisons_set_flags() {
    assert_eq!(&body("1 <= 2;")[4..], &["cmp %rdi, %rax", "setle %al", "movzb %al, %rax"]);
    assert_eq!(&body("1 != 2;")[4..], &["cmp %rdi, %rax", "setne %al", "movzb %al, %rax"]);
}

#[test]
fn unary_minus_negates() {
    assert_eq!(body("-5;"), vec!["mov $5, %rax", "neg %rax"]);
    assert_eq!(body("+5;"), vec!["mov $5, %rax"]);
}

#[test]
fn empty_source_has_empty_body() {
    assert!(body("").is_empty());
    assert!(body("  ;  ").is_empty());
}

#[test]
fn keywords_are_not_names() {
    let program = parse("returnx = 1; return returnx;");
    assert_eq!(program.body.len(), 2);
    assert_eq!(program.stack_size, 16);
}
