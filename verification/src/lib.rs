//! A source-to-source compiler that lowers a small stack-oriented
//! intermediate language (variables, arithmetic, conditionals, scoped
//! blocks) into the primitive instruction set of a single-tape,
//! single-pointer cell machine.
pub mod ast;
pub mod compile;
pub mod emit;
pub mod highlight;
pub mod laws;
pub mod render;
pub mod state;
pub mod text;
