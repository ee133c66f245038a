//! Operator settings.

use vstd::prelude::*;

verus! {

/// Settings of the operator sandbox.
///
/// The CPU limit is held as the container runtime takes it, in
/// billionths of a core.
#[derive(Clone, Debug)]
pub struct SandboxConfig {
    /// WorkingClaw Market platform URL
    pub platform_url: String,
    /// Operator API token (from platform login)
    pub api_token: String,
    /// Ollama endpoint
    pub ollama_url: String,
    /// Model to use for task processing
    pub model_name: String,
    /// Max concurrent tasks (5 to 15 is realistic for consumer hardware)
    pub max_concurrent: u32,
    /// Docker image for task sandboxing
    pub docker_image: String,
    /// Container memory limit (MB)
    pub container_memory_mb: u64,
    /// Container CPU limit, in billionths of a core
    pub container_nano_cpus: i64,
    /// Task timeout (seconds)
    pub task_timeout_secs: u64,
    /// Poll interval for new tasks (seconds)
    pub poll_interval_secs: u64,
}

impl Default for SandboxConfig {
    /// The settings a fresh installation starts with.
    fn default() -> (res: Self)
        ensures
            res.platform_url@ == "https://market.workingclaw.com"@,
            res.api_token@ == Seq::<char>::empty(),
            res.ollama_url@ == "http://localhost:11434"@,
            res.model_name@ == "llama3.1:8b"@,
            res.max_concurrent == 5,
            res.docker_image@ == "workingclaw/sandbox:latest"@,
            res.container_memory_mb == 512,
            res.container_nano_cpus == 1_000_000_000,
            res.task_timeout_secs == 300,
            res.poll_interval_secs == 5,
    {
        SandboxConfig {
            platform_url: "https://market.workingclaw.com".to_owned(),
            api_token: String::new(),
            ollama_url: "http://localhost:11434".to_owned(),
            model_name: "llama3.1:8b".to_owned(),
            max_concurrent: 5,
            docker_image: "workingclaw/sandbox:latest".to_owned(),
            container_memory_mb: 512,
            container_nano_cpus: 1_000_000_000,
            task_timeout_secs: 300,
            poll_interval_secs: 5,
        }
    }
}

} // verus!
