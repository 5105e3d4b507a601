use crate::engine::{displays_as, engine_compile, engine_may_answer};
use crate::error::{BridgeError, Failure};
use crate::options::{OptionTable, OptionValueView, Options};
use crate::settings::{
    compile_settings, default_compile_options, given, resolve_compile_options, CompileOptions,
    COVERAGE_LEVEL, DEBUG_LEVEL, OPTIMIZATION_LEVEL,
};
use vstd::prelude::*;

verus! {

/// Whether `outcome` is what the bridge makes of the engine's `answer` to a
/// compilation: bytecode is handed on as it is, and an error becomes a compile failure
/// that carries the text the error displays as.
pub open spec fn is_compile_outcome(
    answer: Result<Vec<u8>, mlua::Error>,
    outcome: Result<Vec<u8>, BridgeError>,
) -> bool {
    match answer {
        Ok(bytecode) => outcome == Ok::<Vec<u8>, BridgeError>(bytecode),
        Err(error) => {
            &&& outcome is Err
            &&& outcome->Err_0 is CompileFailure
            &&& displays_as(error, outcome->Err_0->CompileFailure_0)
        },
    }
}

/// Whether `outcome` is an answer of the engine for `source` itself under `settings`,
/// in the bridge's own terms: the bytecode that the engine gave for them, which is not
/// empty and does not begin with zero, or a compile failure whose message is the text
/// of the error that the engine gave for them, which is not empty.
pub open spec fn is_answer_for(
    source: Seq<u8>,
    settings: CompileOptions,
    outcome: Result<Vec<u8>, BridgeError>,
) -> bool {
    match outcome {
        Ok(bytecode) => {
            &&& engine_may_answer(
                source,
                settings.optimization_level,
                settings.coverage_level,
                settings.debug_level,
                Ok(bytecode@),
            )
            &&& bytecode@.len() > 0
            &&& bytecode@[0] != 0
        },
        Err(error) => {
            &&& error is CompileFailure
            &&& engine_may_answer(
                source,
                settings.optimization_level,
                settings.coverage_level,
                settings.debug_level,
                Err(error@.text()),
            )
            &&& error@.text().len() > 0
        },
    }
}

/// Turns the engine's answer to a compilation into the bridge's own: bytecode is
/// handed on as it is, and an error becomes a compile failure that carries the text
/// the error displays as.
pub fn compile_outcome(answer: Result<Vec<u8>, mlua::Error>) -> (outcome: Result<
    Vec<u8>,
    BridgeError,
>)
    ensures
        is_compile_outcome(answer, outcome),
{
    match answer {
        Ok(bytecode) => Ok(bytecode),
        Err(error) => Err(BridgeError::CompileFailure(error.to_string())),
    }
}

/// Compiles `source` under `settings`: the engine is asked on the source as it is,
/// under the three levels, and what is returned is its answer in the bridge's own
/// terms.
pub fn compile_with(source: &[u8], settings: &CompileOptions) -> (outcome: Result<
    Vec<u8>,
    BridgeError,
>)
    ensures
        is_answer_for(source@, *settings, outcome),
{
    compile_outcome(
        engine_compile(
            source,
            settings.optimization_level,
            settings.coverage_level,
            settings.debug_level,
        ),
    )
}

/// Compiles `source` to bytecode under the options that the caller hands over, or
/// under the default levels where there are none. The options are resolved first: a
/// type mismatch among them is the result whatever the source holds. Otherwise the
/// engine is asked on the source as it is, under the levels that [`compile_settings`]
/// gives, and what is returned is its answer in the bridge's own terms.
pub fn compile_source(source: &[u8], options: Option<&OptionTable>) -> (outcome: Result<
    Vec<u8>,
    BridgeError,
>)
    ensures
        match compile_settings(given(options)) {
            Err(failure) => outcome is Err && outcome->Err_0@ == failure,
            Ok(settings) => is_answer_for(source@, settings, outcome),
        },
{
    match resolve_compile_options(options) {
        Err(error) => Err(error),
        Ok(settings) => compile_with(source, &settings),
    }
}

/// With no options a compilation runs under the same levels as with the optimization
/// level set to 1, the coverage level to 0 and the debug level to 1: the engine is
/// handed the same.
pub proof fn lemma_compile_default_equivalence(options: Options)
    requires
        options.contains_key(OPTIMIZATION_LEVEL@),
        options[OPTIMIZATION_LEVEL@] == OptionValueView::Integer(1),
        options.contains_key(COVERAGE_LEVEL@),
        options[COVERAGE_LEVEL@] == OptionValueView::Integer(0),
        options.contains_key(DEBUG_LEVEL@),
        options[DEBUG_LEVEL@] == OptionValueView::Integer(1),
    ensures
        compile_settings(Some(options)) == Ok::<CompileOptions, Failure>(
            default_compile_options(),
        ),
        compile_settings(Some(options)) == compile_settings(None),
{
}

/// Whether two option tables hold the same under `key`.
pub open spec fn same_under(first: Options, second: Options, key: Seq<char>) -> bool {
    first.contains_key(key) == second.contains_key(key) && (first.contains_key(key)
        ==> first[key] == second[key])
}

/// The levels that a compilation runs under, or the type mismatch that it fails with,
/// are a function of what the options hold under the three level keys: two option
/// tables that agree on these hand the engine the same levels.
pub proof fn lemma_compile_determined_by_levels(first: Options, second: Options)
    requires
        same_under(first, second, OPTIMIZATION_LEVEL@),
        same_under(first, second, COVERAGE_LEVEL@),
        same_under(first, second, DEBUG_LEVEL@),
    ensures
        compile_settings(Some(first)) == compile_settings(Some(second)),
{
}

/// A key that is none of the three level keys does not change what a compilation
/// hands to the engine, nor whether it fails with a type mismatch, whatever value the
/// key holds.
pub proof fn lemma_compile_ignores_other_keys(
    options: Options,
    key: Seq<char>,
    value: OptionValueView,
)
    requires
        key != OPTIMIZATION_LEVEL@,
        key != COVERAGE_LEVEL@,
        key != DEBUG_LEVEL@,
    ensures
        compile_settings(Some(options.insert(key, value))) == compile_settings(Some(options)),
        compile_settings(Some(options.remove(key))) == compile_settings(Some(options)),
{
    lemma_compile_determined_by_levels(options.insert(key, value), options);
    lemma_compile_determined_by_levels(options.remove(key), options);
}

/// Whether `options` holds under `key` something that is no level: a value that is not
/// an integer, or an integer that a level cannot hold.
pub open spec fn holds_no_level(options: Options, key: Seq<char>) -> bool {
    options.contains_key(key) && !(options[key] is Integer && 0 <= options[key]->Integer_0
        <= u8::MAX)
}

/// A level key of the wrong type fails the options with a type mismatch that names one
/// of the level keys of the wrong type, so that a compilation under them fails with it
/// before the engine is asked: never with a compile failure.
pub proof fn lemma_type_mismatch_before_compiling(options: Options)
    requires
        holds_no_level(options, OPTIMIZATION_LEVEL@) || holds_no_level(options, COVERAGE_LEVEL@)
            || holds_no_level(options, DEBUG_LEVEL@),
    ensures
        compile_settings(Some(options)) is Err,
        compile_settings(Some(options))->Err_0 is TypeMismatch,
        holds_no_level(options, compile_settings(Some(options))->Err_0.text()),
        holds_no_level(options, OPTIMIZATION_LEVEL@) ==> compile_settings(Some(options)) == Err::<
            CompileOptions,
            Failure,
        >(Failure::TypeMismatch(OPTIMIZATION_LEVEL@)),
{
}

} // verus!
