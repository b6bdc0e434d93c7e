pub mod ai;
pub mod api;
pub mod cli;
pub mod durations;
pub mod text;

pub use api::{
    ApiMethod, ApiRequest, ApiResponse, CommandCapabilityPolicy, CommandCapabilityPolicyError, CommandRequest,
    CommandRequestValidationError, CommandResponse, CommandResponseEvent, HttpApiConfig, HttpReloadPhase,
    HttpReloadPolicy, HttpReloadSnapshot, QueryRequest, QueryRequestValidationError, QueryResponse,
    ReloadAction, ReloadCoordinator, ReloadEvent, ReloadStage, RuntimeHttpReloadError, RuntimeStaticInfo, SyncLogView,
};
pub use cli::completion::{CompletionCandidate, CompletionEngine, CompletionKind, CompletionRequest};
pub use cli::help::HelpRenderer;
pub use cli::parser::{CliParser, ParsedCli, ParsedOption};
pub use cli::raw::{ArgLimits, RawArgs};
pub use cli::shell::{render_dynamic_completion_script, Shell, ShellScriptError};
pub use cli::{ArgumentSpec, CliError, CliErrorKind, CliSpec, CommandSpec, OptionSpec, SpecError, ValueMode, ValueType};
