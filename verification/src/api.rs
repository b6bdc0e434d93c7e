pub mod command;
pub mod config;
pub mod decisions;
pub mod generations;
pub mod message;
pub mod query;
pub mod reload;
pub mod reload_machine;
pub mod tokens;

pub use command::{CommandRequest, CommandRequestValidationError, CommandResponse, CommandResponseEvent};
pub use config::{CommandCapabilityPolicy, CommandCapabilityPolicyError, HttpApiConfig, RuntimeStaticInfo, SyncLogView};
pub use message::{ApiMethod, ApiRequest, ApiResponse};
pub use query::{QueryRequest, QueryRequestValidationError, QueryResponse};
pub use reload::{HttpReloadPhase, HttpReloadPolicy, HttpReloadSnapshot, RuntimeHttpReloadError};
pub use generations::{HttpRoutingGenerationSnapshot, HttpRoutingGenerationsSnapshot};
pub use reload_machine::{ReloadAction, ReloadCoordinator, ReloadEvent, ReloadStage};
