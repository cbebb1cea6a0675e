//! The syntax tree that the parser builds and the code generator reads.
pub mod expr;
pub mod lit;
pub mod stmt;

pub use expr::{
    AddrExpr, AssignExpr, BinaryAddrPos, BinaryExpr, BinaryOp, DerefExpr, Expr, ExprView,
    IdentExpr, LeftVal, LeftView, UnaryExpr,
};
pub use lit::{Int32Lit, Lit};
pub use stmt::{
    BlockStmt, EmptyStmt, ExprStmt, ForStmt, IfStmt, Program, ProgramView, ReturnStmt, Stmt,
    StmtView, WhileStmt,
};
