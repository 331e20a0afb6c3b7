//! Payloads and request assembly for reporting runs and tasks to a remote
//! spaces service, with preflight-aware authorization.

mod payload;
mod request;
mod preflight;
pub mod laws;

pub use payload::{
    CreateSpaceRunPayload, FinishSpaceRunPayload, RunStatus, SpaceClientSummary, SpaceRunType,
    SpaceTaskSummary, SpacesCacheStatus,
};
pub use request::{
    add_team_params, classify_response, complete_exchange, space_run_path, space_runs_path, space_tasks_path, APIAuth, APIClient,
    ApiError, Method, PreflightProbe, PreflightResponse, RequestSpec,
};
pub use preflight::{allows_authorization, interpret_preflight};
