use luau_bridge::error::BridgeError;
use luau_bridge::options::{OptionTable, OptionValue};
use luau_bridge::settings::{
    resolve_compile_options, resolve_load_options, CompileOptions, LoadOptions, COVERAGE_LEVEL,
    DEBUG_LEVEL, DEBUG_NAME, OPTIMIZATION_LEVEL,
};

fn mismatch(key: &str) -> BridgeError {
    BridgeError::TypeMismatch(key.to_string())
}

#[test]
fn default_compile_options_are_one_zero_one() {
    let options = CompileOptions::default();
    assert_eq!(options.optimization_level, 1);
    assert_eq!(options.coverage_level, 0);
    assert_eq!(options.debug_level, 1);
}

#[test]
fn default_load_options_have_empty_debug_name() {
    assert_eq!(LoadOptions::default().debug_name, "");
}

#[test]
fn option_keys_are_spelled_as_callers_write_them() {
    assert_eq!(OPTIMIZATION_LEVEL, "optimizationLevel");
    assert_eq!(COVERAGE_LEVEL, "coverageLevel");
    assert_eq!(DEBUG_LEVEL, "debugLevel");
    assert_eq!(DEBUG_NAME, "debugName");
}

#[test]
fn absent_options_resolve_to_defaults() {
    assert_eq!(resolve_compile_options(None), Ok(CompileOptions::default()));
    assert_eq!(resolve_load_options(None), Ok(LoadOptions::default()));
}

#[test]
fn empty_table_resolves_to_defaults() {
    let table = OptionTable::new();
    assert_eq!(resolve_compile_options(Some(&table)), Ok(CompileOptions::default()));
    assert_eq!(resolve_load_options(Some(&table)), Ok(LoadOptions::default()));
}

#[test]
fn each_level_overrides_its_default_alone() {
    let mut table = OptionTable::new();
    table.set("optimizationLevel", OptionValue::Integer(2));
    assert_eq!(
        resolve_compile_options(Some(&table)),
        Ok(CompileOptions { optimization_level: 2, coverage_level: 0, debug_level: 1 })
    );
    let mut table = OptionTable::new();
    table.set("coverageLevel", OptionValue::Integer(2));
    assert_eq!(
        resolve_compile_options(Some(&table)),
        Ok(CompileOptions { optimization_level: 1, coverage_level: 2, debug_level: 1 })
    );
    let mut table = OptionTable::new();
    table.set("debugLevel", OptionValue::Integer(0));
    assert_eq!(
        resolve_compile_options(Some(&table)),
        Ok(CompileOptions { optimization_level: 1, coverage_level: 0, debug_level: 0 })
    );
}

#[test]
fn all_three_levels_are_read() {
    let mut table = OptionTable::new();
    table.set("debugLevel", OptionValue::Integer(2));
    table.set("optimizationLevel", OptionValue::Integer(0));
    table.set("coverageLevel", OptionValue::Integer(1));
    assert_eq!(
        resolve_compile_options(Some(&table)),
        Ok(CompileOptions { optimization_level: 0, coverage_level: 1, debug_level: 2 })
    );
}

#[test]
fn levels_beyond_the_usual_range_are_passed_through() {
    let mut table = OptionTable::new();
    table.set("optimizationLevel", OptionValue::Integer(255));
    table.set("coverageLevel", OptionValue::Integer(3));
    table.set("debugLevel", OptionValue::Integer(100));
    assert_eq!(
        resolve_compile_options(Some(&table)),
        Ok(CompileOptions { optimization_level: 255, coverage_level: 3, debug_level: 100 })
    );
}

#[test]
fn integers_that_no_level_can_hold_are_type_mismatches() {
    let mut table = OptionTable::new();
    table.set("optimizationLevel", OptionValue::Integer(256));
    assert_eq!(resolve_compile_options(Some(&table)), Err(mismatch("optimizationLevel")));
    let mut table = OptionTable::new();
    table.set("coverageLevel", OptionValue::Integer(-1));
    assert_eq!(resolve_compile_options(Some(&table)), Err(mismatch("coverageLevel")));
    let mut table = OptionTable::new();
    table.set("debugLevel", OptionValue::Integer(i64::MIN));
    assert_eq!(resolve_compile_options(Some(&table)), Err(mismatch("debugLevel")));
    let mut table = OptionTable::new();
    table.set("debugLevel", OptionValue::Integer(i64::MAX));
    assert_eq!(resolve_compile_options(Some(&table)), Err(mismatch("debugLevel")));
}

#[test]
fn wrong_type_names_the_offending_key() {
    let mut table = OptionTable::new();
    table.set("optimizationLevel", OptionValue::Text("high".to_string()));
    assert_eq!(resolve_compile_options(Some(&table)), Err(mismatch("optimizationLevel")));
    let mut table = OptionTable::new();
    table.set("optimizationLevel", OptionValue::Integer(2));
    table.set("coverageLevel", OptionValue::Boolean(true));
    assert_eq!(resolve_compile_options(Some(&table)), Err(mismatch("coverageLevel")));
    let mut table = OptionTable::new();
    table.set("debugLevel", OptionValue::Other);
    assert_eq!(resolve_compile_options(Some(&table)), Err(mismatch("debugLevel")));
}

#[test]
fn first_offending_key_is_reported() {
    let mut table = OptionTable::new();
    table.set("debugLevel", OptionValue::Other);
    table.set("coverageLevel", OptionValue::Text("all".to_string()));
    assert_eq!(resolve_compile_options(Some(&table)), Err(mismatch("coverageLevel")));
    table.set("optimizationLevel", OptionValue::Boolean(false));
    assert_eq!(resolve_compile_options(Some(&table)), Err(mismatch("optimizationLevel")));
}

#[test]
fn unrecognized_keys_do_not_change_compile_options() {
    let mut table = OptionTable::new();
    table.set("fooBar", OptionValue::Integer(1));
    table.set("debugName", OptionValue::Integer(7));
    table.set("optimizationlevel", OptionValue::Text("high".to_string()));
    assert_eq!(resolve_compile_options(Some(&table)), Ok(CompileOptions::default()));
    table.set("coverageLevel", OptionValue::Integer(2));
    assert_eq!(
        resolve_compile_options(Some(&table)),
        Ok(CompileOptions { optimization_level: 1, coverage_level: 2, debug_level: 1 })
    );
}

#[test]
fn debug_name_is_read_from_text() {
    let mut table = OptionTable::new();
    table.set("debugName", OptionValue::Text("=startup".to_string()));
    assert_eq!(
        resolve_load_options(Some(&table)),
        Ok(LoadOptions { debug_name: "=startup".to_string() })
    );
    table.set("debugName", OptionValue::Text(String::new()));
    assert_eq!(resolve_load_options(Some(&table)), Ok(LoadOptions::default()));
}

#[test]
fn debug_name_of_wrong_type_is_a_type_mismatch() {
    let mut table = OptionTable::new();
    table.set("debugName", OptionValue::Integer(3));
    assert_eq!(resolve_load_options(Some(&table)), Err(mismatch("debugName")));
    table.set("debugName", OptionValue::Boolean(true));
    assert_eq!(resolve_load_options(Some(&table)), Err(mismatch("debugName")));
    table.set("debugName", OptionValue::Other);
    assert_eq!(resolve_load_options(Some(&table)), Err(mismatch("debugName")));
}

#[test]
fn unrecognized_keys_do_not_change_load_options() {
    let mut table = OptionTable::new();
    table.set("fooBar", OptionValue::Integer(1));
    table.set("optimizationLevel", OptionValue::Text("high".to_string()));
    assert_eq!(resolve_load_options(Some(&table)), Ok(LoadOptions::default()));
    table.set("debugName", OptionValue::Text("x".to_string()));
    assert_eq!(resolve_load_options(Some(&table)), Ok(LoadOptions { debug_name: "x".to_string() }));
}
