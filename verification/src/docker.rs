//! Planning of the sandbox container that runs one task, and the reading
//! of how it ended.
//!
//! Each task runs in a container of its own: the task's text goes in
//! through the environment, the result leaves through standard output, and
//! the container is removed once it is done. The container gets a memory
//! limit, a CPU limit, a read-only root file system, no privileges and no
//! network access. Its command is the same for every task; the task's text
//! reaches it only as data, through the environment.

use vstd::prelude::*;
use crate::text::{
    contains_text, is_white_space, lemma_contains_in_wider, lemma_text_contains_itself,
    lemma_trimmed_has_no_outer_space, decimal_int, format_i64, trim_white_space, trimmed, views,
};

verus! {

/// Where a task's container is in its life.
#[derive(Clone, Copy, Debug, PartialEq, Eq, Structural)]
pub enum ContainerStatus {
    Creating,
    Running,
    Completed,
    Failed,
    TimedOut,
}

/// A container that runs a task.
#[derive(Clone, Debug)]
pub struct TaskContainer {
    pub container_id: String,
    pub task_id: String,
    pub status: ContainerStatus,
}

/// Everything the container runtime is told about a task's container.
pub struct ContainerSpec {
    /// Name of the container
    pub name: String,
    /// Image the container starts from
    pub image: String,
    /// Command and arguments
    pub cmd: Vec<String>,
    /// Environment, as `NAME=value` entries
    pub env: Vec<String>,
    /// Memory limit in bytes
    pub memory_bytes: i64,
    /// CPU limit in billionths of a core
    pub nano_cpus: i64,
    /// Extra `/etc/hosts` entries, as `host:address`
    pub extra_hosts: Vec<String>,
    /// Whether the root file system is mounted read-only
    pub readonly_rootfs: bool,
    /// Whether the container runs privileged
    pub privileged: bool,
    /// Whether networking is switched off
    pub network_disabled: bool,
}

/// The name of the container that runs a task.
pub open spec fn container_name(task_id: Seq<char>) -> Seq<char> {
    "workingclaw-task-"@ + task_id
}

/// The memory limit in bytes for a limit given in megabytes, as the
/// runtime's signed 64-bit field holds it.
pub open spec fn memory_limit_bytes(memory_mb: u64) -> i64 {
    (memory_mb * 1048576) as i64
}

/// The shell script that the container runs. It is the same for every
/// task: the prompt, the input, the model and the server's address reach it
/// only through the environment. A first Python step turns them into the
/// JSON request, `curl` sends it to the model server, and a second Python
/// step prints the response.
pub open spec fn task_script() -> Seq<char> {
    "python3 -c \"import json,os; print(json.dumps({'model': os.environ['MODEL'], 'prompt': os.environ['PROMPT'] + '\\n\\nInput:\\n' + os.environ['INPUT'], 'stream': False}))\" | curl -s \"$OLLAMA_URL/api/generate\" --data-binary @- | python3 -c \"import sys,json; print(json.load(sys.stdin).get('response',''))\""@
}

/// The environment of a task's container: the task's id, the server's
/// address, the model, and the prompt and input as data.
pub open spec fn container_env(
    task_id: Seq<char>,
    ollama_url: Seq<char>,
    model: Seq<char>,
    prompt: Seq<char>,
    input: Seq<char>,
) -> Seq<Seq<char>> {
    seq![
        "TASK_ID="@ + task_id,
        "OLLAMA_URL="@ + ollama_url,
        "MODEL="@ + model,
        "PROMPT="@ + prompt,
        "INPUT="@ + input,
    ]
}

/// Builds the script that the container runs.
pub fn build_exec_script() -> (res: String)
    ensures
        res@ == task_script(),
{
    "python3 -c \"import json,os; print(json.dumps({'model': os.environ['MODEL'], 'prompt': os.environ['PROMPT'] + '\\n\\nInput:\\n' + os.environ['INPUT'], 'stream': False}))\" | curl -s \"$OLLAMA_URL/api/generate\" --data-binary @- | python3 -c \"import sys,json; print(json.load(sys.stdin).get('response',''))\"".to_owned()
}

/// Makes an environment entry `NAME=value`.
fn env_entry(prefix: &str, value: &str) -> (res: String)
    ensures
        res@ == prefix@ + value@,
{
    let mut e = prefix.to_owned();
    e.append(value);
    e
}

/// What a container plan holds.
pub struct ContainerView {
    pub name: Seq<char>,
    pub image: Seq<char>,
    pub cmd: Seq<Seq<char>>,
    pub env: Seq<Seq<char>>,
    pub memory_bytes: i64,
    pub nano_cpus: i64,
    pub extra_hosts: Seq<Seq<char>>,
    pub readonly_rootfs: bool,
    pub privileged: bool,
    pub network_disabled: bool,
}

impl View for ContainerSpec {
    type V = ContainerView;

    open spec fn view(&self) -> ContainerView {
        ContainerView {
            name: self.name@,
            image: self.image@,
            cmd: views(self.cmd@),
            env: views(self.env@),
            memory_bytes: self.memory_bytes,
            nano_cpus: self.nano_cpus,
            extra_hosts: views(self.extra_hosts@),
            readonly_rootfs: self.readonly_rootfs,
            privileged: self.privileged,
            network_disabled: self.network_disabled,
        }
    }
}

/// The container planned for a task: named after the task, started from
/// the image, running the fixed script with `sh -c`, given the task's text
/// through its environment, limited in memory and CPU, read-only,
/// unprivileged and without network access; its only host entry names the
/// host's model server.
pub open spec fn planned_container(
    image: Seq<char>,
    task_id: Seq<char>,
    input_text: Seq<char>,
    prompt: Seq<char>,
    ollama_url: Seq<char>,
    model: Seq<char>,
    memory_mb: u64,
    nano_cpus: i64,
) -> ContainerView {
    ContainerView {
        name: container_name(task_id),
        image,
        cmd: seq!["sh"@, "-c"@, task_script()],
        env: container_env(task_id, ollama_url, model, prompt, input_text),
        memory_bytes: memory_limit_bytes(memory_mb),
        nano_cpus,
        extra_hosts: seq!["host.docker.internal:host-gateway"@],
        readonly_rootfs: true,
        privileged: false,
        network_disabled: true,
    }
}

/// Plans the container for a task: its name, image, script, environment
/// and limits.
pub fn container_spec(
    image: &str,
    task_id: &str,
    input_text: &str,
    prompt: &str,
    ollama_url: &str,
    model: &str,
    memory_mb: u64,
    nano_cpus: i64,
) -> (res: ContainerSpec)
    requires
        memory_mb * 1048576 <= u64::MAX,
    ensures
        res@ == planned_container(
            image@,
            task_id@,
            input_text@,
            prompt@,
            ollama_url@,
            model@,
            memory_mb,
            nano_cpus,
        ),
{
    let name = env_entry("workingclaw-task-", task_id);
    let script = build_exec_script();
    let cmd = vec!["sh".to_owned(), "-c".to_owned(), script];
    let env = vec![
        env_entry("TASK_ID=", task_id),
        env_entry("OLLAMA_URL=", ollama_url),
        env_entry("MODEL=", model),
        env_entry("PROMPT=", prompt),
        env_entry("INPUT=", input_text),
    ];
    let extra_hosts = vec!["host.docker.internal:host-gateway".to_owned()];
    let bytes: u64 = memory_mb * 1024 * 1024;
    let res = ContainerSpec {
        name,
        image: image.to_owned(),
        cmd,
        env,
        memory_bytes: bytes as i64,
        nano_cpus,
        extra_hosts,
        readonly_rootfs: true,
        privileged: false,
        network_disabled: true,
    };
    assert(views(res.cmd@) =~= seq!["sh"@, "-c"@, task_script()]);
    assert(views(res.env@) =~= container_env(task_id@, ollama_url@, model@, prompt@, input_text@));
    assert(views(res.extra_hosts@) =~= seq!["host.docker.internal:host-gateway"@]);
    res
}

/// How waiting for a container ended.
pub enum WaitOutcome {
    /// The container exited with this status code.
    Exited(i64),
    /// The runtime reported an error, with this message.
    Failed(String),
    /// The task's time ran out first.
    TimedOut,
}

/// What a task yields once its container is done, given how the wait ended
/// and what the container wrote to standard output.
pub open spec fn task_result(wait: WaitOutcome, output: Seq<char>) -> Result<Seq<char>, Seq<char>> {
    match wait {
        WaitOutcome::Exited(code) => {
            if code == 0 {
                Ok(trimmed(output))
            } else {
                Err("Container exited with code "@ + decimal_int(code as int))
            }
        },
        WaitOutcome::Failed(e) => Err("Container error: "@ + e@),
        WaitOutcome::TimedOut => Err("Task timed out"@),
    }
}

/// The view of a result of strings.
pub open spec fn result_view(r: Result<String, String>) -> Result<Seq<char>, Seq<char>> {
    match r {
        Ok(s) => Ok(s@),
        Err(e) => Err(e@),
    }
}

/// Turns the end of a container into the task's result: its trimmed output
/// when it exited with status 0, and an error message otherwise.
pub fn container_result(wait: WaitOutcome, output: &str) -> (res: Result<String, String>)
    ensures
        result_view(res) == task_result(wait, output@),
{
    match wait {
        WaitOutcome::Exited(code) => {
            if code == 0 {
                Ok(trim_white_space(output))
            } else {
                let mut m = "Container exited with code ".to_owned();
                let c = format_i64(code);
                m.append(c.as_str());
                Err(m)
            }
        },
        WaitOutcome::Failed(e) => {
            let mut m = "Container error: ".to_owned();
            m.append(e.as_str());
            Err(m)
        },
        WaitOutcome::TimedOut => Err("Task timed out".to_owned()),
    }
}

/// The task's text is data only: whatever the prompt and the input, the
/// container runs the same command, and the two reach it only as the
/// `PROMPT` and `INPUT` entries of its environment. No task's container has
/// network access.
pub proof fn lemma_task_text_is_data_only(
    image: Seq<char>,
    task_id: Seq<char>,
    ollama_url: Seq<char>,
    model: Seq<char>,
    memory_mb: u64,
    nano_cpus: i64,
    input_a: Seq<char>,
    prompt_a: Seq<char>,
    input_b: Seq<char>,
    prompt_b: Seq<char>,
)
    ensures
        ({
            let a = planned_container(
                image,
                task_id,
                input_a,
                prompt_a,
                ollama_url,
                model,
                memory_mb,
                nano_cpus,
            );
            let b = planned_container(
                image,
                task_id,
                input_b,
                prompt_b,
                ollama_url,
                model,
                memory_mb,
                nano_cpus,
            );
            &&& a.cmd == b.cmd
            &&& a.name == b.name
            &&& a.env.take(3) == b.env.take(3)
            &&& a.env[3] == "PROMPT="@ + prompt_a
            &&& a.env[4] == "INPUT="@ + input_a
            &&& a.network_disabled
        }),
{
    let a = planned_container(image, task_id, input_a, prompt_a, ollama_url, model, memory_mb, nano_cpus);
    let b = planned_container(image, task_id, input_b, prompt_b, ollama_url, model, memory_mb, nano_cpus);
    assert(a.env.take(3) =~= b.env.take(3));
}

/// Only a clean exit yields a result: the outcome is a success exactly
/// when the container exited with status 0, and then it is the output with
/// no white space at either end, taken whole from what the container
/// wrote. Any other exit status is an error naming that status, and an
/// error of the runtime is an error that carries its message.
pub proof fn lemma_only_clean_exit_succeeds(wait: WaitOutcome, output: Seq<char>)
    ensures
        task_result(wait, output) is Ok <==> (wait matches WaitOutcome::Exited(c) && c == 0),
        task_result(wait, output) matches Ok(s) ==> {
            &&& contains_text(output, s)
            &&& (s.len() == 0 || (!is_white_space(s[0]) && !is_white_space(s.last())))
        },
        wait matches WaitOutcome::Exited(c) ==> (c != 0 ==> (task_result(wait, output) matches Err(
            m,
        ) && contains_text(m, decimal_int(c as int)))),
        wait matches WaitOutcome::Failed(e) ==> (task_result(wait, output) matches Err(m)
            && contains_text(m, e@)),
{
    lemma_trimmed_has_no_outer_space(output);
    match wait {
        WaitOutcome::Exited(c) => {
            if c != 0 {
                let d = decimal_int(c as int);
                lemma_text_contains_itself(d);
                lemma_contains_in_wider("Container exited with code "@, d, Seq::empty(), d);
                assert("Container exited with code "@ + d + Seq::<char>::empty() =~= "Container exited with code "@ + d);
            }
        },
        WaitOutcome::Failed(e) => {
            lemma_text_contains_itself(e@);
            lemma_contains_in_wider("Container error: "@, e@, Seq::empty(), e@);
            assert("Container error: "@ + e@ + Seq::<char>::empty() =~= "Container error: "@ + e@);
        },
        WaitOutcome::TimedOut => {},
    }
}

/// The container's limits are the ones asked for: a memory limit of `mb`
/// megabytes is `mb` times 1,048,576 bytes whenever that fits the
/// runtime's signed field, and the CPU limit is passed on unchanged; the
/// root file system is read-only and the container is unprivileged.
pub proof fn lemma_container_limits(
    image: Seq<char>,
    task_id: Seq<char>,
    input: Seq<char>,
    prompt: Seq<char>,
    ollama_url: Seq<char>,
    model: Seq<char>,
    memory_mb: u64,
    nano_cpus: i64,
)
    ensures
        ({
            let v = planned_container(image, task_id, input, prompt, ollama_url, model, memory_mb, nano_cpus);
            &&& memory_mb * 1048576 <= i64::MAX ==> v.memory_bytes as int == memory_mb * 1048576
            &&& v.nano_cpus == nano_cpus
            &&& v.readonly_rootfs
            &&& !v.privileged
        }),
{
}

} // verus!
