pub mod diag;
pub mod driver;
pub mod dumper;
pub mod encode;
pub mod error;
pub mod known;
pub mod lexer;
pub mod ast;
pub mod bty;
pub mod bytecode;
pub mod cmd;
pub mod code;
pub mod cpu;
pub mod masm;
pub mod mem;
pub mod position;
pub mod program;
pub mod reader;
pub mod safepoint;
pub mod specialize;
pub mod threads;
pub mod token;
pub mod tuples;
pub mod ty;
pub mod vm;
pub mod utils;
