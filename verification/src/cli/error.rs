use vstd::prelude::*;

verus! {

/// Category of a command-line failure.
#[derive(Clone, Copy, Debug, PartialEq, Eq, Structural)]
pub enum CliErrorKind {
    InvalidInput,
    InvalidSpecification,
    UnknownOption,
    UnexpectedArgument,
    MissingCommand,
    MissingOption,
    MissingValue,
    InvalidValue,
    DuplicateOption,
    OptionConflict,
    MissingRequirement,
}

/// A command-line failure with its diagnostic message.
#[derive(Clone, Debug, PartialEq, Eq)]
pub struct CliError {
    kind: CliErrorKind,
    message: String,
}

/// Abstract content of a [`CliError`].
pub struct CliErrorModel {
    pub kind: CliErrorKind,
    pub message: Seq<char>,
}

impl View for CliError {
    type V = CliErrorModel;

    closed spec fn view(&self) -> CliErrorModel {
        CliErrorModel { kind: self.kind, message: self.message@ }
    }
}

impl CliError {
    /// An error of the given kind.
    pub fn new(kind: CliErrorKind, message: String) -> (r: Self)
        ensures
            r@ == (CliErrorModel { kind: kind, message: message@ }),
    {
        CliError { kind, message }
    }

    /// The category.
    pub fn kind(&self) -> (r: CliErrorKind)
        ensures
            r == self@.kind,
    {
        self.kind
    }

    /// The diagnostic message.
    pub fn message(&self) -> (r: &str)
        ensures
            r@ == self@.message,
    {
        self.message.as_str()
    }
}

} // verus!
