pub mod ast;
pub mod merge;
pub mod parser;
