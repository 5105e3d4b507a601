use crate::engine::displays_as;
use crate::error::{BridgeError, Failure};
use crate::options::{OptionTable, OptionValueView, Options};
use crate::settings::{given, load_settings, resolve_load_options, DEBUG_NAME};
use crate::text::{
    all_whitespace, lemma_trim_leading_drops_prefix, lemma_trim_leading_idempotent,
    lemma_trim_leading_keeps_tail, trim_leading, trim_start,
};
use vstd::prelude::*;

verus! {

/// What a load hands to the engine.
#[derive(Debug, Clone, PartialEq, Eq)]
pub struct LoadRequest<'a> {
    /// The source text to parse. It is text whatever it begins with: the engine is to
    /// be told so, since it loads what it takes for bytecode without checking it.
    pub chunk: &'a str,
    /// The label under which the loaded unit appears in diagnostics.
    pub debug_name: String,
}

/// The mathematical content of a [`LoadRequest`].
pub struct LoadRequestView {
    pub chunk: Seq<char>,
    pub debug_name: Seq<char>,
}

impl<'a> View for LoadRequest<'a> {
    type V = LoadRequestView;

    open spec fn view(&self) -> LoadRequestView {
        LoadRequestView { chunk: self.chunk@, debug_name: self.debug_name@ }
    }
}

/// What a load of `source` under `options` hands to the engine: the source without its
/// leading whitespace, and the debug name that the options give. A debug name of the
/// wrong type is a type mismatch, and nothing is handed to the engine then.
pub open spec fn load_request(source: Seq<char>, options: Option<Options>) -> Result<
    LoadRequestView,
    Failure,
> {
    match load_settings(options) {
        Err(failure) => Err(failure),
        Ok(debug_name) => Ok(LoadRequestView { chunk: trim_leading(source), debug_name }),
    }
}

/// The mathematical content of what planning a load returns.
pub open spec fn plan_view(plan: Result<LoadRequest<'_>, BridgeError>) -> Result<
    LoadRequestView,
    Failure,
> {
    match plan {
        Ok(request) => Ok(request@),
        Err(error) => Err(error@),
    }
}

/// Decides what a load of `source` under `options` hands to the engine.
pub fn plan_load<'a>(source: &'a str, options: Option<&OptionTable>) -> (plan: Result<
    LoadRequest<'a>,
    BridgeError,
>)
    ensures
        plan_view(plan) == load_request(source@, given(options)),
{
    match resolve_load_options(options) {
        Err(error) => Err(error),
        Ok(settings) => Ok(
            LoadRequest { chunk: trim_start(source), debug_name: settings.debug_name },
        ),
    }
}

/// Whether `outcome` is what the bridge makes of the engine's `answer` to a load: the
/// loaded unit is handed on as it is, and an error becomes a load failure that carries
/// the text the error displays as.
pub open spec fn is_load_outcome(
    answer: Result<mlua::Function, mlua::Error>,
    outcome: Result<mlua::Function, BridgeError>,
) -> bool {
    match answer {
        Ok(unit) => outcome == Ok::<mlua::Function, BridgeError>(unit),
        Err(error) => {
            &&& outcome is Err
            &&& outcome->Err_0 is LoadFailure
            &&& displays_as(error, outcome->Err_0->LoadFailure_0)
        },
    }
}

/// Turns the engine's answer to a load into the bridge's own: the loaded unit is
/// handed on as it is, and an error becomes a load failure that carries the text the
/// error displays as.
pub fn load_outcome(answer: Result<mlua::Function, mlua::Error>) -> (outcome: Result<
    mlua::Function,
    BridgeError,
>)
    ensures
        is_load_outcome(answer, outcome),
{
    match answer {
        Ok(unit) => Ok(unit),
        Err(error) => Err(BridgeError::LoadFailure(error.to_string())),
    }
}

/// Whitespace in front of a source does not change what is handed to the engine: a
/// source loads as its trimmed form does.
pub proof fn lemma_load_ignores_leading_whitespace(
    prefix: Seq<char>,
    source: Seq<char>,
    options: Option<Options>,
)
    requires
        all_whitespace(prefix),
    ensures
        load_request(prefix + source, options) == load_request(source, options),
        load_request(trim_leading(source), options) == load_request(source, options),
{
    lemma_trim_leading_drops_prefix(prefix, source);
    lemma_trim_leading_idempotent(source);
}

/// Whitespace at the end of a source reaches the engine: what follows a source that
/// holds a character other than whitespace follows its chunk unchanged.
pub proof fn lemma_load_keeps_trailing_text(
    source: Seq<char>,
    tail: Seq<char>,
    options: Option<Options>,
)
    requires
        !all_whitespace(source),
        load_request(source, options) is Ok,
    ensures
        load_request(source + tail, options) is Ok,
        load_request(source + tail, options)->Ok_0.chunk == load_request(
            source,
            options,
        )->Ok_0.chunk + tail,
        load_request(source + tail, options)->Ok_0.debug_name == load_request(
            source,
            options,
        )->Ok_0.debug_name,
{
    lemma_trim_leading_keeps_tail(source, tail);
}

/// A debug name that is text never fails the options, and changes nothing of the chunk
/// that the engine parses: with it, the same text is handed over as without options.
pub proof fn lemma_debug_name_changes_label_only(
    source: Seq<char>,
    options: Options,
    debug_name: Seq<char>,
)
    requires
        options.contains_key(DEBUG_NAME@),
        options[DEBUG_NAME@] == OptionValueView::Text(debug_name),
    ensures
        load_request(source, None) is Ok,
        load_request(source, Some(options)) == Ok::<LoadRequestView, Failure>(
            LoadRequestView { chunk: load_request(source, None)->Ok_0.chunk, debug_name },
        ),
{
}

/// A key other than the debug name does not change what a load hands to the engine,
/// whatever value it holds.
pub proof fn lemma_load_ignores_other_keys(
    source: Seq<char>,
    options: Options,
    key: Seq<char>,
    value: OptionValueView,
)
    requires
        key != DEBUG_NAME@,
    ensures
        load_request(source, Some(options.insert(key, value))) == load_request(
            source,
            Some(options),
        ),
        load_request(source, Some(options.remove(key))) == load_request(source, Some(options)),
{
}

} // verus!
