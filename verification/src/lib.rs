//! A session-status composer for a terminal application's footer.
//!
//! The engine tracks lightweight session facts (model, effort, workspace,
//! git branch and diff counts, sandbox mode, approval mode), renders them
//! into a compact width-aware status line, and manages the policy around an
//! optional external command provider: payload construction, throttling with
//! jitter, and exponential backoff on repeated failures.

pub mod compose;
pub mod engine;
pub mod payload;
pub mod policy;
pub mod truncate;

pub use compose::StatusEngineState;
pub use compose::StatusItem;
pub use engine::StatusEngine;
pub use engine::StatusEngineConfig;
pub use engine::StatusEngineOutput;
pub use payload::SerializeError;
pub use policy::classify_output;
pub use policy::ProviderOutcome;
pub use policy::ProviderStep;
pub use truncate::truncate_spec;
pub use truncate::truncate_with_ellipsis;
