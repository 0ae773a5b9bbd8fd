//! Lowering of a structured source language towards a line-limited target
//! language: block extraction, macro inlining, struct flattening, static
//! typing and translation into the target syntax tree.

pub mod views;
pub mod grammar;
pub mod yolol;
pub mod error;
pub mod compiler;
