//! The four stages in their order.

use vstd::prelude::*;
use crate::compiler::build_config::BuildConfig;
use crate::compiler::stages::initial_blocks::build_blocks_spec;
use crate::compiler::stages::inline_macros::inline_macros_spec;
use crate::compiler::stages::materialise_structs::materialise_structs_spec;
use crate::compiler::stages::yolol_blocks::{convert_blocks_spec, YololStatementBlocks, YololStatementBlocksView};
use crate::error::{result_view, CompilerError, CompilerErrorView};
use crate::grammar::ast::{Program, ProgramView};

verus! {

/// The lowered program of a source program, or the first error: each stage
/// works on the whole output of the stage before it, and the first error of
/// any stage is the outcome.
pub open spec fn compile_spec(program: ProgramView) -> Result<YololStatementBlocksView, CompilerErrorView> {
    match build_blocks_spec(program) {
        Err(err) => Err(err),
        Ok(blocks) => match inline_macros_spec(blocks) {
            Err(err) => Err(err),
            Ok(inlined) => match materialise_structs_spec(inlined) {
                Err(err) => Err(err),
                Ok(flat) => convert_blocks_spec(flat),
            },
        },
    }
}

/// Lowers a program: extracts its blocks, expands its macro calls,
/// flattens its structs and translates the result for the target.
pub fn compile(program: Program, config: &BuildConfig) -> (r: Result<YololStatementBlocks, CompilerError>)
    ensures
        result_view(r) == compile_spec(program@),
{
    let blocks = match program.build_blocks(config) {
        Ok(b) => b,
        Err(err) => {
            return Err(err);
        },
    };
    let blocks = match blocks.inline_macros(config) {
        Ok(b) => b,
        Err(err) => {
            return Err(err);
        },
    };
    let blocks = match blocks.materialise_structs(config) {
        Ok(b) => b,
        Err(err) => {
            return Err(err);
        },
    };
    blocks.covert_yolol_blocks()
}

/// Two runs on programs that hold the same give outcomes that hold the
/// same: the outcome is a function of the program alone. Where the runs
/// succeed, the blocks are the same statement for statement, and the two
/// tables hold the same entries in the same order, so that whatever is
/// written from the outcome is written from equal values.
pub proof fn lemma_compile_is_deterministic(
    first: Program,
    second: Program,
    first_outcome: Result<YololStatementBlocks, CompilerError>,
    second_outcome: Result<YololStatementBlocks, CompilerError>,
)
    requires
        first@ == second@,
        result_view(first_outcome) == compile_spec(first@),
        result_view(second_outcome) == compile_spec(second@),
    ensures
        result_view(first_outcome) == result_view(second_outcome),
        first_outcome is Ok ==> second_outcome is Ok && first_outcome->Ok_0@.blocks == second_outcome->Ok_0@.blocks
            && first_outcome->Ok_0@.types.entries == second_outcome->Ok_0@.types.entries
            && first_outcome->Ok_0@.consts.entries == second_outcome->Ok_0@.consts.entries,
        first_outcome is Err ==> second_outcome is Err && first_outcome->Err_0@ == second_outcome->Err_0@,
{
}

} // verus!
