use vstd::prelude::*;
use vstd::string::to_string_from_display_ensures;

verus! {

/// `mlua::Function`, the handle of a loaded unit. Nothing is known of what it holds.
#[verifier::external_type_specification]
#[verifier::external_body]
pub struct ExFunction(mlua::Function);

/// `mlua::Error`, the engine's own error. Nothing is read of it but its text, by
/// `to_string`.
#[verifier::external_type_specification]
#[verifier::external_body]
pub struct ExError(mlua::Error);

/// Whether `text` is what `to_string` gives for `error`.
pub open spec fn displays_as(error: mlua::Error, text: String) -> bool {
    to_string_from_display_ensures::<mlua::Error>(&error, text)
}

/// Whether `answer` is among the answers that `mlua::chunk::Compiler::compile` gives
/// for `source` under the three levels, every other compiler setting left as
/// `mlua::chunk::Compiler::new` makes it. An answer is the bytecode, or the text that
/// the error displays as. More than one answer may belong to the same source and
/// levels: the compiler also reads the process's numeric locale and the engine's
/// feature flags.
pub uninterp spec fn engine_may_answer(
    source: Seq<u8>,
    optimization_level: u8,
    coverage_level: u8,
    debug_level: u8,
    answer: Result<Seq<u8>, Seq<char>>,
) -> bool;

/// Calls `mlua::chunk::Compiler::compile` on a compiler made by
/// `mlua::chunk::Compiler::new` and set to the three levels.
///
/// Trusted: what is returned is one of the compiler's answers for this source under
/// these levels, as [`engine_may_answer`] names them. The compiler begins bytecode with
/// a version byte, and `compile` returns as an error whatever begins with a zero byte,
/// so that bytecode is never empty and never begins with zero. Its error is a syntax
/// error, which displays as a fixed prefix followed by the compiler's message, so that
/// the text is never empty.
#[verifier::external_body]
pub(crate) fn engine_compile(
    source: &[u8],
    optimization_level: u8,
    coverage_level: u8,
    debug_level: u8,
) -> (result: Result<Vec<u8>, mlua::Error>)
    ensures
        match result {
            Ok(bytecode) => {
                &&& engine_may_answer(
                    source@,
                    optimization_level,
                    coverage_level,
                    debug_level,
                    Ok(bytecode@),
                )
                &&& bytecode@.len() > 0
                &&& bytecode@[0] != 0
            },
            Err(error) => forall|text: String| #[trigger]
                displays_as(error, text) ==> {
                    &&& engine_may_answer(
                        source@,
                        optimization_level,
                        coverage_level,
                        debug_level,
                        Err(text@),
                    )
                    &&& text@.len() > 0
                },
        },
{
    mlua::chunk::Compiler::new()
        .set_optimization_level(optimization_level)
        .set_coverage_level(coverage_level)
        .set_debug_level(debug_level)
        .compile(source)
}

} // verus!
