use vstd::prelude::*;

verus! {

/// A failure detected while validating a configuration or while resolving a
/// condition against the declared variables.
#[derive(Debug)]
pub enum ParserError {
    /// A condition referenced a variable name that is not declared; carries
    /// the name that was looked up.
    VariableDoesNotExist(String),
    /// A variable's declared default does not fit its type; carries the name
    /// of the offending variable.
    InvalidDefaultValue(String),
}

/// Mathematical model of a `ParserError`.
pub enum ParserErrorView {
    VariableDoesNotExist(Seq<char>),
    InvalidDefaultValue(Seq<char>),
}

impl View for ParserError {
    type V = ParserErrorView;

    open spec fn view(&self) -> ParserErrorView {
        match self {
            ParserError::VariableDoesNotExist(n) => ParserErrorView::VariableDoesNotExist(n@),
            ParserError::InvalidDefaultValue(n) => ParserErrorView::InvalidDefaultValue(n@),
        }
    }
}

impl DeepView for ParserError {
    type V = ParserErrorView;

    open spec fn deep_view(&self) -> ParserErrorView {
        self.view()
    }
}

impl Clone for ParserError {
    fn clone(&self) -> (r: Self)
        ensures
            r@ == self@,
    {
        match self {
            ParserError::VariableDoesNotExist(n) => ParserError::VariableDoesNotExist(n.clone()),
            ParserError::InvalidDefaultValue(n) => ParserError::InvalidDefaultValue(n.clone()),
        }
    }
}

/// A failure while preparing or running a single command, or while expanding
/// placeholders. None of these aborts a surrounding batch.
#[derive(Debug)]
pub enum UtilsError {
    /// The command's conditions did not hold, so it was skipped; not a
    /// failure.
    CommandNotApplicable { name: String },
    /// The command ran and exited with a non-zero status, or could not be
    /// spawned; carries the command's name and the reported cause.
    CommandFailed { name: String, message: String },
    /// Evaluating the command's conditions failed.
    CommandFailedDueToParseError(ParserError),
    /// A placeholder named a variable with no resolved value; carries the
    /// placeholder's name.
    VariableNotSet(String),
}

/// Mathematical model of a `UtilsError`.
pub enum UtilsErrorView {
    CommandNotApplicable { name: Seq<char> },
    CommandFailed { name: Seq<char>, message: Seq<char> },
    CommandFailedDueToParseError(ParserErrorView),
    VariableNotSet(Seq<char>),
}

impl View for UtilsError {
    type V = UtilsErrorView;

    open spec fn view(&self) -> UtilsErrorView {
        match self {
            UtilsError::CommandNotApplicable { name } => UtilsErrorView::CommandNotApplicable {
                name: name@,
            },
            UtilsError::CommandFailed { name, message } => UtilsErrorView::CommandFailed {
                name: name@,
                message: message@,
            },
            UtilsError::CommandFailedDueToParseError(e) => (
            UtilsErrorView::CommandFailedDueToParseError(e@)),
            UtilsError::VariableNotSet(n) => UtilsErrorView::VariableNotSet(n@),
        }
    }
}

impl DeepView for UtilsError {
    type V = UtilsErrorView;

    open spec fn deep_view(&self) -> UtilsErrorView {
        self.view()
    }
}

impl Clone for UtilsError {
    fn clone(&self) -> (r: Self)
        ensures
            r@ == self@,
    {
        match self {
            UtilsError::CommandNotApplicable { name } => UtilsError::CommandNotApplicable {
                name: name.clone(),
            },
            UtilsError::CommandFailed { name, message } => UtilsError::CommandFailed {
                name: name.clone(),
                message: message.clone(),
            },
            UtilsError::CommandFailedDueToParseError(e) => (
            UtilsError::CommandFailedDueToParseError(e.clone())),
            UtilsError::VariableNotSet(n) => UtilsError::VariableNotSet(n.clone()),
        }
    }
}

} // verus!
