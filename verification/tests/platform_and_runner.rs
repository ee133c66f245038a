use workingclaw_sandbox::api_client::{
    is_success, poll_response, submit_response, HttpMethod, RequestBody,
};
use workingclaw_sandbox::commands::{build_status, check_model_available, check_services};
use workingclaw_sandbox::task_runner::{plan_task, poll_round, report_task, PollRound, UiEvent};
use workingclaw_sandbox::{ApiClient, PlatformTask, SandboxConfig, TaskRunner};

fn client() -> ApiClient {
    ApiClient::new("https://market.example.com".to_string(), "tok123".to_string())
}

fn sample_task() -> PlatformTask {
    PlatformTask {
        id: "t-1".to_string(),
        title: "Summarize".to_string(),
        description: None,
        category_name: "document-summary".to_string(),
        input_text: Some("Body text".to_string()),
        input_file_url: None,
        price: 100,
        operator_payout: 80,
    }
}

#[test]
fn default_settings() {
    let c = SandboxConfig::default();
    assert_eq!(c.platform_url, "https://market.workingclaw.com");
    assert_eq!(c.api_token, "");
    assert_eq!(c.ollama_url, "http://localhost:11434");
    assert_eq!(c.model_name, "llama3.1:8b");
    assert_eq!(c.max_concurrent, 5);
    assert_eq!(c.docker_image, "workingclaw/sandbox:latest");
    assert_eq!(c.container_memory_mb, 512);
    assert_eq!(c.container_nano_cpus, 1_000_000_000);
    assert_eq!(c.task_timeout_secs, 300);
    assert_eq!(c.poll_interval_secs, 5);
}

#[test]
fn auth_header_is_bearer_token() {
    assert_eq!(client().auth_header(), "Bearer tok123");
}

#[test]
fn poll_request_addresses_pending_tasks() {
    let r = client().poll_tasks_request();
    assert_eq!(r.method, HttpMethod::Get);
    assert_eq!(r.url, "https://market.example.com/api/operators/tasks/pending");
    assert_eq!(r.authorization, "Bearer tok123");
    assert!(matches!(r.body, RequestBody::Empty));
}

#[test]
fn task_requests_address_the_task() {
    let api = client();
    let r = api.task_started_request("t-9");
    assert_eq!(r.method, HttpMethod::Post);
    assert_eq!(r.url, "https://market.example.com/api/tasks/t-9/started");
    assert!(matches!(r.body, RequestBody::Empty));

    let r = api.submit_result_request("t-9", "out", "llama3.1:8b", 0, 12);
    assert_eq!(r.url, "https://market.example.com/api/tasks/t-9/result");
    match r.body {
        RequestBody::TaskResult(p) => {
            assert_eq!(p.output, "out");
            assert_eq!(p.model_used, "llama3.1:8b");
            assert_eq!(p.tokens_used, 0);
            assert_eq!(p.processing_time, 12);
        }
        _ => panic!("expected a task result body"),
    }

    let r = api.task_failed_request("t-9", "boom");
    assert_eq!(r.url, "https://market.example.com/api/tasks/t-9/failed");
    match r.body {
        RequestBody::TaskFailure(p) => assert_eq!(p.error, "boom"),
        _ => panic!("expected a failure body"),
    }
}

#[test]
fn operator_requests() {
    let api = client();
    let r = api.set_online_request(true);
    assert_eq!(r.url, "https://market.example.com/api/operators/status");
    assert_eq!(r.authorization, "Bearer tok123");
    match r.body {
        RequestBody::Online(p) => assert!(p.is_online),
        _ => panic!("expected an online body"),
    }
    let r = api.certification_request("email-draft", "mistral");
    assert_eq!(r.url, "https://market.example.com/api/operators/certify");
    match r.body {
        RequestBody::Certification(p) => {
            assert_eq!(p.category, "email-draft");
            assert_eq!(p.model, "mistral");
        }
        _ => panic!("expected a certification body"),
    }
}

#[test]
fn status_codes() {
    assert!(is_success(200));
    assert!(is_success(299));
    assert!(!is_success(199));
    assert!(!is_success(300));
    assert!(!is_success(404));
}

#[test]
fn poll_refusal_message_shows_status_and_body() {
    assert_eq!(poll_response(200, "[]"), Ok(()));
    assert_eq!(
        poll_response(404, "missing"),
        Err("Poll failed (404 Not Found): missing".to_string())
    );
    assert_eq!(
        poll_response(500, ""),
        Err("Poll failed (500 Internal Server Error): ".to_string())
    );
    assert_eq!(
        poll_response(599, "x"),
        Err("Poll failed (599 <unknown status code>): x".to_string())
    );
}

#[test]
fn submit_refusal_message() {
    assert_eq!(submit_response(201, "ok"), Ok(()));
    assert_eq!(
        submit_response(401, "bad token"),
        Err("Submit result failed: bad token".to_string())
    );
}

#[test]
fn runner_counts_tasks_in_flight() {
    let mut r = TaskRunner::new();
    assert_eq!(r.current_load(), 0);
    assert_eq!(r.tasks_completed(), 0);
    let e = r.try_begin_task("a", 5).expect("room for a task");
    assert!(matches!(e, UiEvent::TaskStarted(ref id) if id == "a"));
    assert_eq!(e.name(), "task-started");
    assert!(r.try_begin_task("b", 5).is_some());
    assert_eq!(r.current_load(), 2);
    r.record_completion();
    r.end_task();
    assert_eq!(r.current_load(), 1);
    assert_eq!(r.tasks_completed(), 1);
    r.end_task();
    r.end_task();
    assert_eq!(r.current_load(), 0);
    assert!(r.uptime_seconds() < 60);
}

#[test]
fn runner_refuses_starts_beyond_the_limit() {
    let mut r = TaskRunner::new();
    assert!(r.try_begin_task("a", 2).is_some());
    assert!(r.try_begin_task("b", 2).is_some());
    assert!(r.try_begin_task("c", 2).is_none());
    assert_eq!(r.current_load(), 2);
    r.end_task();
    assert!(r.try_begin_task("c", 2).is_some());
    assert_eq!(r.current_load(), 2);
    assert!(TaskRunner::new().try_begin_task("z", 0).is_none());
}

#[test]
fn poll_round_dispatches_tasks() {
    match poll_round(Ok(vec![sample_task(), sample_task()])) {
        PollRound::Dispatch { announce, tasks } => {
            let ev = announce.expect("two tasks are announced");
            assert!(matches!(ev, UiEvent::TasksReceived(2)));
            assert_eq!(ev.name(), "tasks-received");
            assert_eq!(tasks.len(), 2);
        }
        PollRound::Failed { .. } => panic!("poll succeeded"),
    }
    match poll_round(Ok(vec![])) {
        PollRound::Dispatch { announce, tasks } => {
            assert!(announce.is_none());
            assert!(tasks.is_empty());
        }
        PollRound::Failed { .. } => panic!("poll succeeded"),
    }
    match poll_round(Err("Poll failed (500 Internal Server Error): ".to_string())) {
        PollRound::Failed { event } => {
            assert_eq!(event.name(), "poll-error");
            assert!(matches!(event, UiEvent::PollError(ref m) if m.starts_with("Poll failed")));
        }
        PollRound::Dispatch { .. } => panic!("poll failed"),
    }
}

#[test]
fn plan_of_a_task() {
    let cfg = SandboxConfig::default();
    let spec = plan_task(&sample_task(), &cfg);
    assert_eq!(spec.name, "workingclaw-task-t-1");
    assert_eq!(spec.image, "workingclaw/sandbox:latest");
    assert_eq!(spec.memory_bytes, 536870912);
    assert_eq!(spec.nano_cpus, 1_000_000_000);
    let prompt = workingclaw_sandbox::build_task_prompt("document-summary", "Summarize", "", "Body text");
    assert!(prompt.contains("Instructions: \n"));
    assert_eq!(spec.cmd[2], workingclaw_sandbox::docker::build_exec_script());
    assert_eq!(spec.env[3], format!("PROMPT={}", prompt));
    assert_eq!(spec.env[4], "INPUT=Body text");
    assert!(spec.network_disabled);
}

#[test]
fn report_of_success_and_failure() {
    let api = client();
    let rep = report_task(&api, "t-1", "llama3.1:8b", Ok("answer".to_string()), 42);
    assert!(rep.succeeded);
    assert_eq!(rep.request.url, "https://market.example.com/api/tasks/t-1/result");
    assert_eq!(rep.event.name(), "task-completed");
    match rep.event {
        UiEvent::TaskCompleted { task_id, duration, success } => {
            assert_eq!(task_id, "t-1");
            assert_eq!(duration, 42);
            assert!(success);
        }
        _ => panic!("expected completion"),
    }
    let rep = report_task(&api, "t-1", "llama3.1:8b", Err("Task timed out".to_string()), 300);
    assert!(!rep.succeeded);
    assert_eq!(rep.request.url, "https://market.example.com/api/tasks/t-1/failed");
    assert_eq!(rep.event.name(), "task-failed");
    match rep.event {
        UiEvent::TaskFailed { task_id, error } => {
            assert_eq!(task_id, "t-1");
            assert_eq!(error, "Task timed out");
        }
        _ => panic!("expected failure"),
    }
}

#[test]
fn status_report() {
    let mut runner = TaskRunner::new();
    runner.try_begin_task("x", 5);
    let cfg = SandboxConfig::default();
    let s = build_status(true, &runner, &cfg, Ok(true), Err("refused".to_string()), 77);
    assert!(s.is_online);
    assert_eq!(s.current_load, 1);
    assert_eq!(s.max_concurrent, 5);
    assert!(s.docker_available);
    assert!(!s.ollama_available);
    assert_eq!(s.model_loaded, "llama3.1:8b");
    assert_eq!(s.tasks_completed, 0);
    assert_eq!(s.uptime_seconds, 77);
    let s = build_status(false, &runner, &cfg, Ok(false), Ok(true), 0);
    assert!(!s.docker_available);
    assert!(s.ollama_available);
}

#[test]
fn going_online_checks_services_in_order() {
    assert_eq!(check_services(Ok(true), Ok(true), "http://h:1"), Ok(()));
    assert_eq!(
        check_services(Err("no socket".to_string()), Ok(false), "http://h:1"),
        Err("Docker is not running. Start Docker Desktop first.".to_string())
    );
    assert_eq!(
        check_services(Ok(true), Ok(false), "http://h:1"),
        Err("Cannot reach Ollama at http://h:1. Is it running?".to_string())
    );
}

#[test]
fn going_online_needs_the_model() {
    let models = vec!["mistral:7b".to_string(), "llama3.1:8b-instruct".to_string()];
    assert_eq!(check_model_available(Ok(models.clone()), "llama3.1:8b"), Ok(()));
    assert_eq!(
        check_model_available(Ok(models), "phi3"),
        Err("Model 'phi3' not found. Available: mistral:7b, llama3.1:8b-instruct".to_string())
    );
    assert_eq!(
        check_model_available(Ok(vec![]), "phi3"),
        Err("Model 'phi3' not found. Available: ".to_string())
    );
    assert_eq!(
        check_model_available(Err("connection refused".to_string()), "phi3"),
        Err("Failed to list models: connection refused".to_string())
    );
}
