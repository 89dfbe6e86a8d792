pub mod ast;
pub mod debug_text;
pub mod matcher;
pub mod naming;
pub mod plan;
pub mod rule;
pub mod text;
pub mod unalias;
pub mod qed;
