use vstd::prelude::*;

verus! {

/// Why a call of the bridge produced no output.
#[derive(Debug, Clone, PartialEq, Eq)]
pub enum BridgeError {
    /// A recognized option holds a value of the wrong type. Carries the option's key.
    TypeMismatch(String),
    /// The engine refused to compile the source. Carries the engine's message.
    CompileFailure(String),
    /// The engine refused to load the source. Carries the engine's message.
    LoadFailure(String),
}

/// The mathematical content of a [`BridgeError`]: its kind and the text it carries.
pub enum Failure {
    TypeMismatch(Seq<char>),
    CompileFailure(Seq<char>),
    LoadFailure(Seq<char>),
}

impl View for BridgeError {
    type V = Failure;

    open spec fn view(&self) -> Failure {
        match self {
            BridgeError::TypeMismatch(key) => Failure::TypeMismatch(key@),
            BridgeError::CompileFailure(message) => Failure::CompileFailure(message@),
            BridgeError::LoadFailure(message) => Failure::LoadFailure(message@),
        }
    }
}

impl Failure {
    /// The text that the failure carries: the key of the offending option, or the
    /// engine's message.
    pub open spec fn text(self) -> Seq<char> {
        match self {
            Failure::TypeMismatch(key) => key,
            Failure::CompileFailure(message) => message,
            Failure::LoadFailure(message) => message,
        }
    }
}

impl BridgeError {
    /// The text that the error carries: for a type mismatch the key of the offending
    /// option, otherwise the engine's message, unchanged.
    pub fn text(&self) -> (text: &str)
        ensures
            text@ == self@.text(),
    {
        match self {
            BridgeError::TypeMismatch(key) => key.as_str(),
            BridgeError::CompileFailure(message) => message.as_str(),
            BridgeError::LoadFailure(message) => message.as_str(),
        }
    }
}

} // verus!
