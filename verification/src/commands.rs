//! The decisions behind the operator's commands: the status report and
//! the checks made before going online.

use vstd::prelude::*;
use crate::config::SandboxConfig;
use crate::task_runner::TaskRunner;
use crate::text::{
    contains_text, join_texts, joined, lemma_text_contains_itself, text_contains, views,
};

verus! {

/// The sandbox's status as the user interface shows it.
#[derive(Clone, Debug)]
pub struct StatusResponse {
    pub is_online: bool,
    pub current_load: u32,
    pub max_concurrent: u32,
    pub docker_available: bool,
    pub ollama_available: bool,
    pub model_loaded: String,
    pub tasks_completed: u64,
    pub uptime_seconds: u64,
}

/// A probe's answer, with a failed probe counting as "not available".
pub open spec fn probe_says(probe: Result<bool, String>) -> bool {
    match probe {
        Ok(b) => b,
        Err(_) => false,
    }
}

fn probe_answer(probe: &Result<bool, String>) -> (res: bool)
    ensures
        res == probe_says(*probe),
{
    match probe {
        Ok(b) => *b,
        Err(_) => false,
    }
}

/// Assembles the status from the online flag, the runner, the settings,
/// the answers of the container-runtime and model-server probes, and the
/// runner's uptime as read from the clock.
pub fn build_status(
    is_online: bool,
    runner: &TaskRunner,
    config: &SandboxConfig,
    docker_probe: Result<bool, String>,
    ollama_probe: Result<bool, String>,
    uptime_seconds: u64,
) -> (res: StatusResponse)
    ensures
        res.is_online == is_online,
        res.current_load == runner@.current_load,
        res.max_concurrent == config.max_concurrent,
        res.docker_available == probe_says(docker_probe),
        res.ollama_available == probe_says(ollama_probe),
        res.model_loaded@ == config.model_name@,
        res.tasks_completed == runner@.tasks_completed,
        res.uptime_seconds == uptime_seconds,
{
    StatusResponse {
        is_online,
        current_load: runner.current_load(),
        max_concurrent: config.max_concurrent,
        docker_available: probe_answer(&docker_probe),
        ollama_available: probe_answer(&ollama_probe),
        model_loaded: config.model_name.clone(),
        tasks_completed: runner.tasks_completed(),
        uptime_seconds,
    }
}

/// The refusal when the container runtime is not running.
pub open spec fn docker_down_text() -> Seq<char> {
    "Docker is not running. Start Docker Desktop first."@
}

/// The refusal when the model server cannot be reached.
pub open spec fn ollama_down_text(ollama_url: Seq<char>) -> Seq<char> {
    "Cannot reach Ollama at "@ + ollama_url + ". Is it running?"@
}

/// The first checks before going online: the container runtime, then the
/// model server, must answer that they run.
pub fn check_services(
    docker_probe: Result<bool, String>,
    ollama_probe: Result<bool, String>,
    ollama_url: &str,
) -> (res: Result<(), String>)
    ensures
        res is Ok <==> probe_says(docker_probe) && probe_says(ollama_probe),
        !probe_says(docker_probe) ==> (res matches Err(m) && m@ == docker_down_text()),
        probe_says(docker_probe) && !probe_says(ollama_probe) ==> (res matches Err(m) && m@
            == ollama_down_text(ollama_url@)),
{
    if !probe_answer(&docker_probe) {
        return Err("Docker is not running. Start Docker Desktop first.".to_owned());
    }
    if !probe_answer(&ollama_probe) {
        let mut m = "Cannot reach Ollama at ".to_owned();
        m.append(ollama_url);
        m.append(". Is it running?");
        return Err(m);
    }
    Ok(())
}

/// Some model's name holds the wanted name.
pub open spec fn model_listed(models: Seq<Seq<char>>, model_name: Seq<char>) -> bool {
    exists|i: int| 0 <= i < models.len() && contains_text(#[trigger] models[i], model_name)
}

/// The refusal when the listing of models failed.
pub open spec fn listing_failed_text(error: Seq<char>) -> Seq<char> {
    "Failed to list models: "@ + error
}

/// The refusal when the wanted model is not among those available.
pub open spec fn model_missing_text(model_name: Seq<char>, models: Seq<Seq<char>>) -> Seq<char> {
    "Model '"@ + model_name + "' not found. Available: "@ + joined(models, ", "@)
}

/// The last check before going online: the configured model must be among
/// those the model server lists, a listed name holding it as a part.
pub fn check_model_available(models: Result<Vec<String>, String>, model_name: &str) -> (res:
    Result<(), String>)
    ensures
        match models {
            Err(e) => res matches Err(m) && m@ == listing_failed_text(e@),
            Ok(list) => if model_listed(views(list@), model_name@) {
                res is Ok
            } else {
                res matches Err(m) && m@ == model_missing_text(model_name@, views(list@))
            },
        },
{
    match models {
        Err(e) => {
            let mut m = "Failed to list models: ".to_owned();
            m.append(e.as_str());
            Err(m)
        },
        Ok(list) => {
            let mut i: usize = 0;
            #[verifier::loop_isolation(false)]
            while i < list.len()
                invariant
                    i <= list@.len(),
                    forall|k: int|
                        0 <= k < i ==> !contains_text(#[trigger] views(list@)[k], model_name@),
                decreases list@.len() - i,
            {
                if text_contains(list[i].as_str(), model_name) {
                    assert(contains_text(views(list@)[i as int], model_name@));
                    return Ok(());
                }
                i = i + 1;
            }
            let mut m = "Model '".to_owned();
            m.append(model_name);
            m.append("' not found. Available: ");
            let all = join_texts(&list, ", ");
            m.append(all.as_str());
            Err(m)
        },
    }
}

/// The model check looks at every listed model: the wanted model counts
/// as available as soon as any listed name, the first one included, holds
/// it, and in particular when a listed name is exactly the wanted name;
/// it counts as missing only when no listed name holds it.
pub proof fn lemma_model_check_looks_at_every_model(
    models: Seq<Seq<char>>,
    model_name: Seq<char>,
    i: int,
)
    ensures
        0 <= i < models.len() && contains_text(models[i], model_name) ==> model_listed(
            models,
            model_name,
        ),
        0 <= i < models.len() && models[i] == model_name ==> model_listed(models, model_name),
        !model_listed(models, model_name) ==> (0 <= i < models.len() ==> !contains_text(
            models[i],
            model_name,
        )),
        models.len() == 0 ==> !model_listed(models, model_name),
{
    lemma_text_contains_itself(model_name);
    if 0 <= i < models.len() && contains_text(models[i], model_name) {
        assert(contains_text(models[i], model_name));
    }
}

/// A probe counts as "running" only when it answered, and answered yes: a
/// failed probe and a "no" both count as "not running".
pub proof fn lemma_probe_counts_only_a_yes(probe: Result<bool, String>)
    ensures
        probe_says(probe) <==> (probe matches Ok(b) && b),
{
}

} // verus!
