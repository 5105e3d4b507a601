use crate::error::{BridgeError, Failure};
use crate::options::{OptionTable, OptionValue, OptionValueView, Options};
use vstd::prelude::*;

verus! {

/// The key under which a caller sets the optimization level.
pub const OPTIMIZATION_LEVEL: &'static str = "optimizationLevel";

/// The key under which a caller sets the coverage level.
pub const COVERAGE_LEVEL: &'static str = "coverageLevel";

/// The key under which a caller sets the debug level.
pub const DEBUG_LEVEL: &'static str = "debugLevel";

/// The key under which a caller sets the debug name of a loaded unit.
pub const DEBUG_NAME: &'static str = "debugName";

/// The levels under which a source is compiled.
#[derive(Debug, Clone, Copy, PartialEq, Eq, Structural)]
pub struct CompileOptions {
    pub optimization_level: u8,
    pub coverage_level: u8,
    pub debug_level: u8,
}

/// The levels in force where the caller sets none.
pub open spec fn default_compile_options() -> CompileOptions {
    CompileOptions { optimization_level: 1, coverage_level: 0, debug_level: 1 }
}

impl Default for CompileOptions {
    fn default() -> (options: Self)
        ensures
            options == default_compile_options(),
    {
        CompileOptions { optimization_level: 1, coverage_level: 0, debug_level: 1 }
    }
}

/// The settings under which a source is loaded.
#[derive(Debug, Clone, PartialEq, Eq)]
pub struct LoadOptions {
    /// The label under which the loaded unit appears in diagnostics.
    pub debug_name: String,
}

impl Default for LoadOptions {
    fn default() -> (options: Self)
        ensures
            options.debug_name@ == Seq::<char>::empty(),
    {
        LoadOptions { debug_name: String::new() }
    }
}

/// What a caller handed over as options: nothing, or the content of a table.
pub open spec fn given(options: Option<&OptionTable>) -> Option<Options> {
    match options {
        Some(table) => Some(table@),
        None => None,
    }
}

/// The level that `options` gives for `key`: `default` where the key is not set, the
/// value where it is an integer that a level can hold, and otherwise a type mismatch
/// that names the key.
pub open spec fn level_setting(options: Options, key: Seq<char>, default: u8) -> Result<
    u8,
    Failure,
> {
    if !options.contains_key(key) {
        Ok(default)
    } else if options[key] is Integer && 0 <= options[key]->Integer_0 <= u8::MAX {
        Ok(options[key]->Integer_0 as u8)
    } else {
        Err(Failure::TypeMismatch(key))
    }
}

/// The text that `options` gives for `key`: `default` where the key is not set, the
/// value where it is text, and otherwise a type mismatch that names the key.
pub open spec fn text_setting(options: Options, key: Seq<char>, default: Seq<char>) -> Result<
    Seq<char>,
    Failure,
> {
    if !options.contains_key(key) {
        Ok(default)
    } else if options[key] is Text {
        Ok(options[key]->Text_0)
    } else {
        Err(Failure::TypeMismatch(key))
    }
}

/// The levels that a compilation runs under. With no options they are the defaults.
/// Otherwise each of the three keys is read on its own; of several keys of the wrong
/// type the optimization level is reported before the coverage level, and that before
/// the debug level. No other key is read.
pub open spec fn compile_settings(options: Option<Options>) -> Result<CompileOptions, Failure> {
    match options {
        None => Ok(default_compile_options()),
        Some(table) => match level_setting(table, OPTIMIZATION_LEVEL@, 1) {
            Err(failure) => Err(failure),
            Ok(optimization_level) => match level_setting(table, COVERAGE_LEVEL@, 0) {
                Err(failure) => Err(failure),
                Ok(coverage_level) => match level_setting(table, DEBUG_LEVEL@, 1) {
                    Err(failure) => Err(failure),
                    Ok(debug_level) => Ok(
                        CompileOptions { optimization_level, coverage_level, debug_level },
                    ),
                },
            },
        },
    }
}

/// The debug name that a load runs under: empty with no options or with the key not
/// set. No other key is read.
pub open spec fn load_settings(options: Option<Options>) -> Result<Seq<char>, Failure> {
    match options {
        None => Ok(Seq::<char>::empty()),
        Some(table) => text_setting(table, DEBUG_NAME@, Seq::<char>::empty()),
    }
}

/// The four keys are four different texts.
pub proof fn lemma_keys_are_distinct()
    ensures
        OPTIMIZATION_LEVEL@ != COVERAGE_LEVEL@,
        OPTIMIZATION_LEVEL@ != DEBUG_LEVEL@,
        OPTIMIZATION_LEVEL@ != DEBUG_NAME@,
        COVERAGE_LEVEL@ != DEBUG_LEVEL@,
        COVERAGE_LEVEL@ != DEBUG_NAME@,
        DEBUG_LEVEL@ != DEBUG_NAME@,
{
    reveal_strlit("optimizationLevel");
    reveal_strlit("coverageLevel");
    reveal_strlit("debugLevel");
    reveal_strlit("debugName");
    assert(OPTIMIZATION_LEVEL@.len() == 17);
    assert(COVERAGE_LEVEL@.len() == 13);
    assert(DEBUG_LEVEL@.len() == 10);
    assert(DEBUG_NAME@.len() == 9);
}

/// Each level is resolved on its own: where the options resolve, setting one level key
/// to a level sets that level and leaves the other two as they were.
pub proof fn lemma_levels_resolve_independently(options: Options, level: u8)
    requires
        compile_settings(Some(options)) is Ok,
    ensures
        compile_settings(Some(options.insert(OPTIMIZATION_LEVEL@, OptionValueView::Integer(level as int))))
            == Ok::<CompileOptions, Failure>(
            CompileOptions { optimization_level: level, ..compile_settings(Some(options))->Ok_0 },
        ),
        compile_settings(Some(options.insert(COVERAGE_LEVEL@, OptionValueView::Integer(level as int))))
            == Ok::<CompileOptions, Failure>(
            CompileOptions { coverage_level: level, ..compile_settings(Some(options))->Ok_0 },
        ),
        compile_settings(Some(options.insert(DEBUG_LEVEL@, OptionValueView::Integer(level as int))))
            == Ok::<CompileOptions, Failure>(
            CompileOptions { debug_level: level, ..compile_settings(Some(options))->Ok_0 },
        ),
{
    lemma_keys_are_distinct();
}

/// Reads one level from `table`.
fn read_level(table: &OptionTable, key: &str, default: u8) -> (level: Result<u8, BridgeError>)
    ensures
        match level {
            Ok(value) => level_setting(table@, key@, default) == Ok::<u8, Failure>(value),
            Err(error) => level_setting(table@, key@, default) == Err::<u8, Failure>(error@),
        },
{
    match table.get(key) {
        None => Ok(default),
        Some(OptionValue::Integer(value)) => {
            if 0 <= *value && *value <= 255 {
                Ok(*value as u8)
            } else {
                Err(BridgeError::TypeMismatch(key.to_owned()))
            }
        },
        Some(_) => Err(BridgeError::TypeMismatch(key.to_owned())),
    }
}

/// Resolves the options of a compilation, in full, before anything is compiled.
pub fn resolve_compile_options(options: Option<&OptionTable>) -> (resolved: Result<
    CompileOptions,
    BridgeError,
>)
    ensures
        match resolved {
            Ok(settings) => compile_settings(given(options)) == Ok::<CompileOptions, Failure>(
                settings,
            ),
            Err(error) => compile_settings(given(options)) == Err::<CompileOptions, Failure>(
                error@,
            ),
        },
{
    match options {
        None => Ok(CompileOptions::default()),
        Some(table) => {
            let optimization_level = match read_level(table, OPTIMIZATION_LEVEL, 1) {
                Ok(level) => level,
                Err(error) => {
                    return Err(error);
                },
            };
            let coverage_level = match read_level(table, COVERAGE_LEVEL, 0) {
                Ok(level) => level,
                Err(error) => {
                    return Err(error);
                },
            };
            let debug_level = match read_level(table, DEBUG_LEVEL, 1) {
                Ok(level) => level,
                Err(error) => {
                    return Err(error);
                },
            };
            Ok(CompileOptions { optimization_level, coverage_level, debug_level })
        },
    }
}

/// Resolves the options of a load, in full, before anything is loaded.
pub fn resolve_load_options(options: Option<&OptionTable>) -> (resolved: Result<
    LoadOptions,
    BridgeError,
>)
    ensures
        match resolved {
            Ok(settings) => load_settings(given(options)) == Ok::<Seq<char>, Failure>(
                settings.debug_name@,
            ),
            Err(error) => load_settings(given(options)) == Err::<Seq<char>, Failure>(error@),
        },
{
    match options {
        None => Ok(LoadOptions::default()),
        Some(table) => match table.get(DEBUG_NAME) {
            None => Ok(LoadOptions::default()),
            Some(OptionValue::Text(name)) => Ok(LoadOptions { debug_name: name.clone() }),
            Some(_) => Err(BridgeError::TypeMismatch(DEBUG_NAME.to_owned())),
        },
    }
}

} // verus!
