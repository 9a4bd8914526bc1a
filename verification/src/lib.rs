//! A structure-preserving rewrite engine for script-language expression
//! trees. Given a tree, it produces an equivalent tree in which every
//! property read, property write and function call is redirected through
//! calls on a designated interception object (the haven), optionally gated
//! by a runtime-checked activity flag that lets execution fall back to the
//! original, unredirected semantics.

pub mod ast;
pub mod engine;
pub mod laws;
pub mod rules;

pub use ast::Arg;
pub use ast::AssignExpr;
pub use ast::AssignOp;
pub use ast::AssignTarget;
pub use ast::CallExpr;
pub use ast::Callee;
pub use ast::CondExpr;
pub use ast::Expr;
pub use ast::Ident;
pub use ast::Lit;
pub use ast::MemberExpr;
pub use ast::MemberProp;
pub use ast::OptMemberExpr;
pub use ast::OtherNode;
pub use engine::Tipper;
