pub mod completion;
pub mod error;
pub mod help;
pub mod laws;
pub mod numbers;
pub mod parser;
pub mod raw;
pub mod shell;
pub mod spec;
pub mod suggestion;
pub mod validation;
pub mod value;

pub use error::{CliError, CliErrorKind};
pub use spec::{ArgumentSpec, CliSpec, CommandSpec, OptionSpec, SpecError, ValueMode, ValueType};
