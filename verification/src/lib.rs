//! Verified core of the WorkingClaw operator sandbox: prompt and container
//! planning, platform request building and task bookkeeping.

pub mod api_client;
pub mod commands;
pub mod config;
pub mod docker;
pub mod ollama;
pub mod task_runner;
pub mod text;

pub use api_client::{ApiClient, PlatformTask};
pub use config::SandboxConfig;
pub use docker::{ContainerStatus, TaskContainer};
pub use ollama::build_task_prompt;
pub use task_runner::TaskRunner;
pub use commands::StatusResponse;
