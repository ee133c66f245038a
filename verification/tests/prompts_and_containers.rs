use workingclaw_sandbox::build_task_prompt;
use workingclaw_sandbox::ollama::{generate_url, tags_url};
use workingclaw_sandbox::docker::{
    build_exec_script, container_result, container_spec, ContainerStatus, TaskContainer,
    WaitOutcome,
};
use workingclaw_sandbox::text::{
    format_i64, join_texts, text_contains, text_equals, trim_white_space,
    white_space,
};

#[test]
fn prompt_document_summary() {
    let p = build_task_prompt("document-summary", "Q3 report", "Be brief", "Revenue rose.");
    let expected = format!(
        "You are a professional document summarizer. Create a clear, concise summary of the following document.\n\
        Focus on key points, conclusions, and actionable items.\n\n\
        Title: {}\n\
        Instructions: {}\n\n\
        DOCUMENT:\n{}\n\n\
        SUMMARY:",
        "Q3 report", "Be brief", "Revenue rose."
    );
    assert_eq!(p, expected);
}

#[test]
fn prompt_email_draft_ignores_input() {
    let p = build_task_prompt("email-draft", "Meeting", "Formal tone", "unused input");
    let expected = format!(
        "You are a professional email writer. Draft a polished, professional email based on the following brief.\n\
        Match the requested tone and include all specified points.\n\n\
        Brief: {}\n\
        Details: {}\n\n\
        EMAIL:",
        "Meeting", "Formal tone"
    );
    assert_eq!(p, expected);
    assert!(!p.contains("unused input"));
}

#[test]
fn prompt_content_writing() {
    let p = build_task_prompt("content-writing", "Blog", "Casual", "Topic: tea");
    let expected = format!(
        "You are a professional content writer. Write high-quality content based on the following brief.\n\
        Target audience and tone should match the request.\n\n\
        Brief: {}\n\
        Details: {}\n\n\
        Additional context:\n{}\n\n\
        CONTENT:",
        "Blog", "Casual", "Topic: tea"
    );
    assert_eq!(p, expected);
}

#[test]
fn prompt_other_category_uses_general_prompt() {
    let p = build_task_prompt("translation", "T", "D", "I");
    assert_eq!(
        p,
        "Complete the following task professionally and thoroughly.\n\nTask: T\nDetails: D\nInput: I\n\nOUTPUT:"
    );
    let q = build_task_prompt("Document-Summary", "T", "D", "I");
    assert!(q.starts_with("Complete the following task"));
}

#[test]
fn prompt_holds_title_in_every_category() {
    for cat in ["document-summary", "email-draft", "content-writing", "other", ""] {
        let p = build_task_prompt(cat, "Unique Title 42", "desc", "in");
        assert!(p.contains("Unique Title 42"));
        assert!(p.contains("desc"));
    }
}

#[test]
fn exec_script_exact_text() {
    let expected = r#"python3 -c "import json,os; print(json.dumps({'model': os.environ['MODEL'], 'prompt': os.environ['PROMPT'] + '\n\nInput:\n' + os.environ['INPUT'], 'stream': False}))" | curl -s "$OLLAMA_URL/api/generate" --data-binary @- | python3 -c "import sys,json; print(json.load(sys.stdin).get('response',''))""#;
    assert_eq!(build_exec_script(), expected);
}

#[test]
fn task_text_reaches_container_as_data_only() {
    let a = container_spec("img", "t", "a", "say 'x'", "http://h:1", "m", 1, 1);
    let b = container_spec("img", "t", "b\"; rm -rf /", "p\n", "http://h:1", "m", 1, 1);
    assert_eq!(a.cmd, b.cmd);
    assert!(!a.cmd[2].contains("say"));
    assert!(!b.cmd[2].contains("rm -rf"));
    assert_eq!(a.env[3], "PROMPT=say 'x'");
    assert_eq!(b.env[4], "INPUT=b\"; rm -rf /");
    assert!(a.network_disabled && b.network_disabled);
}

#[test]
fn container_plan_fields() {
    let spec = container_spec(
        "workingclaw/sandbox:latest",
        "task-7",
        "the input",
        "the prompt",
        "http://localhost:11434",
        "llama3.1:8b",
        512,
        1_000_000_000,
    );
    assert_eq!(spec.name, "workingclaw-task-task-7");
    assert_eq!(spec.image, "workingclaw/sandbox:latest");
    assert_eq!(spec.cmd.len(), 3);
    assert_eq!(spec.cmd[0], "sh");
    assert_eq!(spec.cmd[1], "-c");
    assert_eq!(spec.cmd[2], build_exec_script());
    assert_eq!(
        spec.env,
        vec![
            "TASK_ID=task-7".to_string(),
            "OLLAMA_URL=http://localhost:11434".to_string(),
            "MODEL=llama3.1:8b".to_string(),
            "PROMPT=the prompt".to_string(),
            "INPUT=the input".to_string()
        ]
    );
    assert_eq!(spec.memory_bytes, 512 * 1024 * 1024);
    assert_eq!(spec.nano_cpus, 1_000_000_000);
    assert_eq!(spec.extra_hosts, vec!["host.docker.internal:host-gateway".to_string()]);
    assert!(spec.readonly_rootfs);
    assert!(!spec.privileged);
    assert!(spec.network_disabled);
}

#[test]
fn container_memory_limit_wraps_like_a_cast() {
    let spec = container_spec("i", "t", "", "", "u", "m", 1u64 << 43, 0);
    assert_eq!(spec.memory_bytes, i64::MIN);
    let spec = container_spec("i", "t", "", "", "u", "m", 0, 0);
    assert_eq!(spec.memory_bytes, 0);
}

#[test]
fn container_result_success_is_trimmed() {
    let r = container_result(WaitOutcome::Exited(0), "  \n the summary \t\n");
    assert_eq!(r, Ok("the summary".to_string()));
    let r = container_result(WaitOutcome::Exited(0), "\u{3000}\u{85}x y\u{2028}");
    assert_eq!(r, Ok("x y".to_string()));
    let r = container_result(WaitOutcome::Exited(0), " \n ");
    assert_eq!(r, Ok(String::new()));
}

#[test]
fn container_result_errors() {
    assert_eq!(
        container_result(WaitOutcome::Exited(137), "out"),
        Err("Container exited with code 137".to_string())
    );
    assert_eq!(
        container_result(WaitOutcome::Exited(-5), "out"),
        Err("Container exited with code -5".to_string())
    );
    assert_eq!(
        container_result(WaitOutcome::Failed("no such image".to_string()), ""),
        Err("Container error: no such image".to_string())
    );
    assert_eq!(
        container_result(WaitOutcome::TimedOut, "partial"),
        Err("Task timed out".to_string())
    );
}

#[test]
fn decimal_formatting() {
    assert_eq!(format_i64(0), "0");
    assert_eq!(format_i64(7), "7");
    assert_eq!(format_i64(10), "10");
    assert_eq!(format_i64(-1), "-1");
    assert_eq!(format_i64(i64::MAX), i64::MAX.to_string());
    assert_eq!(format_i64(i64::MIN), i64::MIN.to_string());
}

#[test]
fn trimming_matches_std_and_is_idempotent() {
    for s in ["", " ", "a", " a ", "\t\na b\r\n", "\u{a0}x\u{205f}", "\u{200b}x"] {
        let t = trim_white_space(s);
        assert_eq!(t, s.trim());
        assert_eq!(trim_white_space(&t), t);
    }
}

#[test]
fn white_space_matches_std() {
    for c in ['\t', '\n', '\u{b}', '\u{c}', '\r', ' ', '\u{85}', '\u{a0}', '\u{1680}', '\u{2000}',
        '\u{200a}', '\u{2028}', '\u{2029}', '\u{202f}', '\u{205f}', '\u{3000}', 'a', '\u{200b}',
        '\u{8}', '\u{180e}', '\u{feff}']
    {
        assert_eq!(white_space(c), c.is_whitespace());
    }
}

#[test]
fn substring_search_and_join() {
    assert!(text_contains("llama3.1:8b", "llama3.1"));
    assert!(text_contains("abc", ""));
    assert!(!text_contains("ab", "abc"));
    assert!(!text_contains("mistral:7b", "llama"));
    assert!(text_contains("aab", "ab"));
    assert_eq!(join_texts(&vec![], ", "), "");
    assert_eq!(join_texts(&vec!["a".to_string()], ", "), "a");
    assert_eq!(join_texts(&vec!["a".to_string(), "b".to_string(), "c".to_string()], ", "), "a, b, c");
    assert!(text_equals("x", "x"));
    assert!(!text_equals("x", "y"));
}

#[test]
fn container_records() {
    let c = TaskContainer {
        container_id: "abc".to_string(),
        task_id: "t1".to_string(),
        status: ContainerStatus::Running,
    };
    let d = c.clone();
    assert_eq!(d.status, ContainerStatus::Running);
    assert_eq!(d.container_id, "abc");
    assert_ne!(ContainerStatus::Completed, ContainerStatus::Failed);
}

#[test]
fn model_server_endpoints() {
    assert_eq!(tags_url("http://localhost:11434"), "http://localhost:11434/api/tags");
    assert_eq!(generate_url("http://h:1"), "http://h:1/api/generate");
}
