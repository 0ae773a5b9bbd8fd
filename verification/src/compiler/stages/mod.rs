pub mod statements;
pub mod initial_blocks;
pub mod inline_macros;
pub mod materialise_structs;
pub mod yolol_blocks;
