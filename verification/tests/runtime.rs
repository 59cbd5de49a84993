use devstudio::agent::{AgentOutput, AgentRole, ChangeKind, CodeChange, OutputMetadata, Task, TaskPriority};
use devstudio::app_error::{ApiError, AppError};
use devstudio::auth::{bearer_token, issue_claims, token_rejection, Claims, RequireAuth, TokenErrorKind, TokenRequest};
use devstudio::config::{AuthSettings, DatabaseSettings, DeploymentSettings, QueueSettings, SandboxSettings, SecuritySettings, ServerSettings, TracingSettings};
use devstudio::dispatcher::{after_poll, flag_enables, has_free_providers, no_plugin_record, run_record, uses_postgres, PollOutcome, TaskStatus};
use devstudio::drivers::{self, ChatChoice, ChatResponse, ChatUsage, DriverCallResult, DriverStep, FreeProviderDriver};
use devstudio::handlers::{deployment_version, project_id_from, sandbox_project_id, snapshot_message, validate_project_name, validate_task_title, vote_entry, world_counts};
use devstudio::llm_providers::{ollama_config, ProviderEnv};
use devstudio::llm_types::{ChatMessage, ProviderConfig};
use devstudio::metrics::{record_llm_call, record_llm_error, record_request, record_task_completed, record_task_failed};
use devstudio::queue::{depth_from_len, redis_retry, MemoryQueue, NackOutcome, QueueItem, RedisQueue};
use devstudio::rate_limit::{forwarded_for_first, rate_limit_message, RateLimiter};
use devstudio::sandbox::{container_exit_code, container_name, container_work_dir, diff_output, exec_command, exec_env, exec_timeout_secs, local_diff, local_snapshot_id, process_exit_code, snapshot_image, snapshot_tag};
use devstudio::text::{parse_u64, u64_to_string};

const SEC: u64 = 1_000_000_000;
const IP_A: (u8, u128) = (4, 0x7f000001);
const IP_B: (u8, u128) = (4, 0x0a000001);

#[test]
fn status_codes() {
    let cases = vec![
        (AppError::NotFound("p".to_string()), 404, "NOT_FOUND"),
        (AppError::Conflict("c".to_string()), 409, "CONFLICT"),
        (AppError::BadRequest("b".to_string()), 400, "BAD_REQUEST"),
        (AppError::Unauthorized, 401, "UNAUTHORIZED"),
        (AppError::Forbidden, 403, "FORBIDDEN"),
        (AppError::Sandbox("s".to_string()), 500, "SANDBOX_ERROR"),
        (AppError::Agent("a".to_string()), 500, "AGENT_ERROR"),
        (AppError::SecurityScan("x".to_string()), 422, "SECURITY_SCAN_FAIL"),
        (AppError::Deployment("d".to_string()), 500, "DEPLOYMENT_ERROR"),
        (AppError::Internal("i".to_string()), 500, "INTERNAL_ERROR"),
    ];
    for (e, status, code) in cases {
        let api = ApiError::from(e);
        assert_eq!(api.status_and_code(), (status, code));
    }
    assert_eq!(AppError::Internal("boom".to_string()).detail(), Some("boom"));
    assert_eq!(AppError::Forbidden.detail(), None);
}

#[test]
fn bearer_tokens() {
    assert_eq!(bearer_token(None).unwrap_err().message, "Authorization header fehlt");
    assert_eq!(bearer_token(Some("Basic abc")).unwrap_err().message, "Bearer-Token erwartet");
    assert_eq!(bearer_token(Some("bearer abc")).unwrap_err().message, "Bearer-Token erwartet");
    assert_eq!(bearer_token(Some("Bearer abc.def")).unwrap(), "abc.def");
    assert_eq!(bearer_token(Some("Bearer ")).unwrap(), "");
}

#[test]
fn token_rejections() {
    assert_eq!(token_rejection(TokenErrorKind::ExpiredSignature).message, "Token abgelaufen");
    assert_eq!(token_rejection(TokenErrorKind::InvalidSignature).message, "Ungültige Signatur");
    assert_eq!(token_rejection(TokenErrorKind::InvalidToken).message, "Ungültiges Token-Format");
    assert_eq!(token_rejection(TokenErrorKind::Other).message, "Token-Validierung fehlgeschlagen");
}

#[test]
fn token_issuing() {
    let req = TokenRequest { sub: "dev".to_string(), secret: "s3".to_string() };
    let c = issue_claims(&req, "s3", 1_700_000_000, 86_400).unwrap();
    assert_eq!((c.sub.as_str(), c.iat, c.exp), ("dev", 1_700_000_000, 1_700_086_400));
    assert_eq!(issue_claims(&req, "other", 1, 1).unwrap_err().message, "Falsches Secret");
    assert_eq!(issue_claims(&req, "other", u64::MAX, 10).unwrap_err().message, "Falsches Secret");
    let auth = RequireAuth(Claims { sub: "x".to_string(), exp: 2, iat: 1 });
    assert_eq!(auth.0.sub, "x");
}

#[test]
fn metric_samples() {
    let m = record_request("GET", "/health", 200);
    assert_eq!(m.name, "devstudio_requests_total");
    assert_eq!(m.increment, 1);
    let labels: Vec<(&str, &str)> = m.labels.iter().map(|(k, v)| (*k, v.as_str())).collect();
    assert_eq!(labels, vec![("method", "GET"), ("path", "/health"), ("status", "200")]);
    assert_eq!(record_task_completed().name, "devstudio_tasks_completed_total");
    assert_eq!(record_task_failed().name, "devstudio_tasks_failed_total");
    assert_eq!(record_llm_call("Groq").labels[0].1, "Groq");
    assert_eq!(record_llm_error("Groq").name, "devstudio_llm_errors_total");
}

#[test]
fn limiter_refuses_over_limit() {
    let mut l = RateLimiter::new(2);
    assert_eq!(l.check(IP_A, 0), Ok(()));
    assert_eq!(l.check(IP_A, SEC), Ok(()));
    assert_eq!(l.check(IP_A, 2 * SEC), Err(59));
    assert_eq!(l.check(IP_B, 2 * SEC), Ok(()));
    assert_eq!(l.check(IP_A, 61 * SEC), Ok(()));
    assert_eq!(l.check(IP_A, 61 * SEC), Ok(()));
    assert_eq!(l.check(IP_A, 61 * SEC), Err(61));
}

#[test]
fn every_window_holds_at_most_limit() {
    let mut l = RateLimiter::new(3);
    let mut accepted: Vec<u64> = Vec::new();
    let mut now: u64 = 0;
    for step in 0..400u64 {
        now += (step % 7) * SEC / 2;
        if l.check(IP_A, now).is_ok() {
            accepted.push(now);
        }
    }
    assert!(accepted.len() > 3);
    for &end in &accepted {
        let inside = accepted.iter().filter(|&&t| t <= end && end - t < 60 * SEC).count();
        assert!(inside <= 3);
    }
}

#[test]
fn limiter_with_zero_limit() {
    let mut l = RateLimiter::new(0);
    assert_eq!(l.check(IP_A, 5 * SEC), Err(60));
}

#[test]
fn refused_requests_do_not_count() {
    let mut l = RateLimiter::new(1);
    assert_eq!(l.check(IP_A, 0), Ok(()));
    for s in 1..50 {
        assert!(l.check(IP_A, s * SEC).is_err());
    }
    assert_eq!(l.check(IP_A, 60 * SEC), Ok(()));
}

#[test]
fn limit_settings() {
    assert_eq!(RateLimiter::limit_from_setting(Some("120")), 120);
    assert_eq!(RateLimiter::limit_from_setting(Some("+5")), 5);
    assert_eq!(RateLimiter::limit_from_setting(Some("abc")), 300);
    assert_eq!(RateLimiter::limit_from_setting(Some("99999999999")), 300);
    assert_eq!(RateLimiter::limit_from_setting(Some(" 7")), 300);
    assert_eq!(RateLimiter::limit_from_setting(None), 300);
}

#[test]
fn forwarded_addresses() {
    assert_eq!(forwarded_for_first(" 10.0.0.1 , 10.0.0.2"), "10.0.0.1");
    assert_eq!(forwarded_for_first("::1"), "::1");
    assert_eq!(rate_limit_message(59), "Limit überschritten — bitte in 59s erneut versuchen");
}

#[test]
fn numbers_as_text() {
    assert_eq!(parse_u64("0"), Some(0));
    assert_eq!(parse_u64("18446744073709551615"), Some(u64::MAX));
    assert_eq!(parse_u64("18446744073709551616"), None);
    assert_eq!(parse_u64(""), None);
    assert_eq!(parse_u64("+"), None);
    assert_eq!(parse_u64("-1"), None);
    assert_eq!(u64_to_string(0), "0");
    assert_eq!(u64_to_string(1234567890), "1234567890");
    assert_eq!(u64_to_string(u64::MAX), "18446744073709551615");
}

fn task(id: u128) -> Task {
    Task { id, title: format!("t{id}"), description: String::new(), required_role: Some(AgentRole::Coding), priority: TaskPriority::Normal, project_id: 1, status: TaskStatus::Pending }
}

fn task_with(id: u128, priority: TaskPriority) -> Task {
    Task { priority, ..task(id) }
}

#[test]
fn queue_is_fifo_and_bounded() {
    let mut q = MemoryQueue::new(2);
    assert!(q.push(task(1)).is_ok());
    assert!(q.push(task(2)).is_ok());
    let back = q.push(task(3)).unwrap_err();
    assert_eq!(back.id, 3);
    assert_eq!(q.depth(), 2);
    assert_eq!(q.pop().unwrap().task.id, 1);
    assert_eq!(q.pop().unwrap().task.id, 2);
    assert!(q.pop().is_none());
    assert_eq!(q.depth(), 0);
}

#[test]
fn failed_tasks_are_retried_up_to_five_times() {
    let mut q = MemoryQueue::new(4);
    q.push(task(9)).unwrap();
    let mut deliveries = 0;
    loop {
        let item = q.pop().unwrap();
        deliveries += 1;
        assert_eq!(item.attempts, deliveries - 1);
        match q.nack(9) {
            NackOutcome::Requeued => assert_eq!(q.depth(), 1),
            NackOutcome::Retry(_) => panic!("the queue had room"),
            NackOutcome::Dropped(last) => {
                assert_eq!(last.attempts, 5);
                break;
            }
            NackOutcome::Unknown => panic!("the task was in flight"),
        }
    }
    assert_eq!(deliveries, 5);
    assert!(q.pop().is_none());
}

#[test]
fn a_failed_task_waits_when_the_queue_is_full() {
    let mut q = MemoryQueue::new(1);
    q.push(task(1)).unwrap();
    let _ = q.pop().unwrap();
    q.push(task(2)).unwrap();
    match q.nack(1) {
        NackOutcome::Retry(item) => {
            assert_eq!((item.task.id, item.attempts), (1, 1));
            assert!(q.try_push_item(item).is_err());
        }
        other => panic!("expected a retry, got {other:?}"),
    }
    assert_eq!(q.depth(), 1);
}

#[test]
fn higher_priority_is_taken_first() {
    let mut q = MemoryQueue::new(8);
    q.push(task_with(1, TaskPriority::Low)).unwrap();
    q.push(task_with(2, TaskPriority::High)).unwrap();
    q.push(task_with(3, TaskPriority::Normal)).unwrap();
    q.push(task_with(4, TaskPriority::High)).unwrap();
    q.push(task_with(5, TaskPriority::Critical)).unwrap();
    let order: Vec<u128> = (0..5).map(|_| q.pop().unwrap().task.id).collect();
    assert_eq!(order, vec![5, 2, 4, 3, 1]);
    assert!(q.pop().is_none());
    assert_eq!(TaskPriority::default(), TaskPriority::Normal);
    assert_eq!(TaskPriority::Critical.rank(), 3);
}

#[test]
fn acked_tasks_leave_flight() {
    let mut q = MemoryQueue::new(4);
    q.push(task(1)).unwrap();
    let _ = q.pop().unwrap();
    q.ack(1);
    assert!(matches!(q.nack(1), NackOutcome::Unknown));
    assert!(matches!(q.nack(77), NackOutcome::Unknown));
}

#[test]
fn queue_items_start_fresh() {
    let i = QueueItem::new(task(4));
    assert_eq!((i.task.id, i.attempts), (4, 0));
    assert_eq!(i.duplicate().task.title, "t4");
}

#[test]
fn redis_decisions() {
    assert_eq!(redis_retry(0), (1, false));
    assert_eq!(redis_retry(3), (4, false));
    assert_eq!(redis_retry(4), (5, true));
    assert_eq!(depth_from_len(-3), 0);
    assert_eq!(depth_from_len(12), 12);
    assert!(RedisQueue::new("redis://127.0.0.1:6379").is_ok());
    match RedisQueue::new("not a url") {
        Err(AppError::Internal(m)) => assert!(m.starts_with("Redis-Client: ")),
        _ => panic!("expected an internal error"),
    }
    match RedisQueue::from_open_result(Err("invalid URL".to_string())) {
        Err(AppError::Internal(m)) => assert_eq!(m, "Redis-Client: invalid URL"),
        _ => panic!("expected an internal error"),
    }
    let client = redis::Client::open("redis://127.0.0.1:6379").unwrap();
    assert!(RedisQueue::from_open_result(Ok(client)).is_ok());
}

const SB: u128 = 0xa1a2a3a4b1b2c1c2d1d2d3d4d5d6d7d8;

#[test]
fn sandbox_names() {
    assert_eq!(container_name(SB), "devstudio-sb-a1a2a3a4");
    assert_eq!(snapshot_tag(SB), "devstudio-snap-a1a2a3a4");
    assert_eq!(snapshot_image(SB), "forgefabrik/devstudio-snapshot:devstudio-snap-a1a2a3a4");
    assert_eq!(container_work_dir(SB), "/workspace/a1a2a3a4-b1b2-c1c2-d1d2-d3d4d5d6d7d8");
    assert_eq!(local_diff(SB), "# diff sandbox a1a2a3a4-b1b2-c1c2-d1d2-d3d4d5d6d7d8 (local mode — kein Git-Tracking)");
}

#[test]
fn sandbox_executions() {
    let env = vec![("A".to_string(), "1".to_string()), ("B".to_string(), "x=y".to_string())];
    assert_eq!(exec_env(&env), vec!["A=1", "B=x=y"]);
    assert_eq!(exec_command("git", &vec!["diff".to_string(), "--stat".to_string()]), vec!["git", "diff", "--stat"]);
    assert_eq!(exec_timeout_secs(Some(10), 300), 10);
    assert_eq!(exec_timeout_secs(None, 300), 300);
    assert_eq!(container_exit_code(None), -1);
    assert_eq!(container_exit_code(Some(2)), 2);
    assert_eq!(container_exit_code(Some((1i64 << 32) + 5)), 5);
    assert_eq!(process_exit_code(None), -1);
    assert_eq!(diff_output(0, "out".to_string(), "err".to_string()), "out");
    assert_eq!(diff_output(1, "out".to_string(), "err".to_string()), "err");
}

#[test]
fn local_snapshot_ids() {
    assert_eq!(local_snapshot_id("/tmp/sb", 1_700_000_000_123), "86855e03547261f4960003d71f51183d5f12a63cd5902f26555667000188dc02");
    assert_eq!(local_snapshot_id("/tmp/sb", -1), "0fec372bc62600ccb247d701dcdf55c6ef305d9138274ed6bd24304017a6bd33");
}

#[test]
fn dispatcher_backoff() {
    assert_eq!(after_poll(PollOutcome::Failed, 200), (200, 400));
    assert_eq!(after_poll(PollOutcome::Failed, 20_000), (20_000, 30_000));
    assert_eq!(after_poll(PollOutcome::Empty, 800), (500, 500));
    assert_eq!(after_poll(PollOutcome::Task, 30_000), (0, 200));
    let mut b = 200;
    for _ in 0..20 {
        let (wait, next) = after_poll(PollOutcome::Failed, b);
        assert!(wait <= 30_000 && next <= 30_000 && next >= 200);
        b = next;
    }
    assert_eq!(b, 30_000);
}

#[test]
fn run_records() {
    let r = no_plugin_record();
    assert_eq!(r.status, TaskStatus::Failed);
    assert_eq!(r.error.as_deref(), Some("kein passendes Plugin registriert"));
    assert!(!r.ack);
    let out = AgentOutput {
        summary: "done".to_string(),
        changes: vec![CodeChange { path: "a".to_string(), kind: ChangeKind::Created, content: String::new(), checksum: String::new() }],
        metadata: OutputMetadata { agent_role: "coding", provider: "free-llm-router", lines: 0, plugin_id: "forgefabrik.llm-free" },
    };
    let r = run_record(Ok(out));
    assert_eq!(r.status, TaskStatus::Completed);
    assert!(r.ack);
    assert_eq!(r.summary, Some(("done".to_string(), 1)));
    let m = r.metadata.unwrap();
    assert_eq!((m.agent_role, m.provider, m.lines, m.plugin_id), ("coding", "free-llm-router", 0, "forgefabrik.llm-free"));
    let r = run_record(Err("agent failed".to_string()));
    assert!(r.metadata.is_none());
    assert_eq!((r.status, r.error.as_deref(), r.ack), (TaskStatus::Failed, Some("agent failed"), false));
}

#[test]
fn free_llm_detection() {
    assert!(has_free_providers(Some("TRUE"), &vec![]));
    assert!(has_free_providers(Some("1"), &vec![]));
    assert!(!has_free_providers(Some("yes"), &vec![None, Some(String::new())]));
    assert!(has_free_providers(None, &vec![None, Some("gsk".to_string())]));
    assert!(!has_free_providers(None, &vec![]));
    assert!(uses_postgres("postgres://u@h/db"));
    assert!(!uses_postgres("sqlite::memory:"));
}

#[test]
fn free_llm_flag_values() {
    assert!(flag_enables("TRUE", "true"));
    assert!(flag_enables("1", "1"));
    assert!(!flag_enables("yes", "yes"));
    assert!(!flag_enables("True ", "true "));
}

#[test]
fn request_checks() {
    assert!(matches!(validate_project_name("   "), Err(AppError::BadRequest(m)) if m == "name ist erforderlich"));
    assert!(validate_project_name(" Test-Projekt ").is_ok());
    assert!(matches!(validate_task_title(""), Err(AppError::BadRequest(m)) if m == "title ist erforderlich"));
    assert!(validate_task_title("Feature X").is_ok());
    assert_eq!(sandbox_project_id(Some("a1a2a3a4-b1b2-c1c2-d1d2-d3d4d5d6d7d8")).unwrap(), SB);
    assert!(matches!(sandbox_project_id(None), Err(AppError::BadRequest(m)) if m == "project_id ist erforderlich"));
    assert!(sandbox_project_id(Some("nope")).is_err());
    assert_eq!(project_id_from(Some(7)).unwrap(), 7);
    assert!(matches!(project_id_from(None), Err(AppError::BadRequest(m)) if m == "project_id ist erforderlich"));
}

#[test]
fn invalid_requests_answer_400() {
    let e = validate_project_name("   ").unwrap_err();
    assert_eq!(ApiError::from(e).status_and_code(), (400, "BAD_REQUEST"));
    let e = validate_task_title("").unwrap_err();
    assert_eq!(ApiError::from(e).status_and_code(), (400, "BAD_REQUEST"));
    let e = sandbox_project_id(None).unwrap_err();
    assert_eq!(ApiError::from(e).status_and_code(), (400, "BAD_REQUEST"));
}

#[test]
fn request_defaults() {
    assert_eq!(vote_entry(None, None), ("unknown".to_string(), false));
    assert_eq!(vote_entry(Some("alice"), Some(true)), ("alice".to_string(), true));
    assert_eq!(snapshot_message(None), "manual snapshot");
    assert_eq!(snapshot_message(Some("v1")), "v1");
    assert_eq!(world_counts(&vec![3, 0, 4]), (3, 7));
    assert_eq!(world_counts(&vec![]), (0, 0));
    assert_eq!(deployment_version(None, 1_700_000_000), "1700000000");
    assert_eq!(deployment_version(None, -42), "-42");
    assert_eq!(deployment_version(None, i64::MIN), "-9223372036854775808");
    assert_eq!(deployment_version(Some("v2".to_string()), 5), "v2");
}

fn dprovider(name: &'static str) -> ProviderConfig {
    ProviderConfig { name, base_url: "http://example/v1", api_key: None, model: "default-model" }
}

#[test]
fn driver_decisions() {
    let d = FreeProviderDriver::new();
    assert_eq!(d.provider_name(), "free-provider-driver");
    let ollama = ollama_config(None).unwrap();
    assert_eq!(drivers::resolve_model(&ollama, &vec!["mistral".to_string()]), "qwen2.5-coder:7b");
    assert_eq!(drivers::resolve_model(&ollama, &vec!["x".to_string(), "llama3.2".to_string()]), "llama3.2");
    assert_eq!(drivers::LlmError::NoProviders.message(), "Kein Provider konfiguriert");
    assert_eq!(drivers::LlmError::Http { status: 500, body: "b".to_string() }.message(), "HTTP 500: b");
    let ps = vec![dprovider("Groq")];
    match drivers::failover_next(&ps, 0, Err(drivers::LlmError::Network("x".to_string()))) {
        DriverStep::Finished(Err(drivers::LlmError::AllFailed(m))) => assert_eq!(m, "Groq: Netzwerk: x"),
        _ => panic!("expected all failed"),
    }
    let resp = ChatResponse {
        choices: vec![ChatChoice { message: ChatMessage::assistant("hi") }],
        usage: Some(ChatUsage { total_tokens: Some(3) }),
        model: None,
    };
    let r = drivers::call_result(&ps[0], "m".to_string(), resp).unwrap();
    assert_eq!((r.text.as_str(), r.model.as_str(), r.tokens), ("hi", "m", Some(3)));
    let ok = FreeProviderDriver::chat_response(Ok(DriverCallResult { provider: "Groq", model: "m".to_string(), text: "t".to_string(), tokens: None })).unwrap();
    assert_eq!((ok.provider.as_str(), ok.text.as_str()), ("Groq", "t"));
    match FreeProviderDriver::chat_response(Err(drivers::LlmError::NoProviders)) {
        Err(AppError::Agent(m)) => assert_eq!(m, "Kein Provider konfiguriert"),
        _ => panic!("expected an agent error"),
    }
    let env = ProviderEnv { openrouter_key: None, groq_key: None, cerebras_key: None, sambanova_key: None, mistral_key: None, google_key: None, llm7_key: None, ollama_base_url: None };
    assert_eq!(drivers::available_providers(&env).len(), 1);
}

#[test]
fn settings_records() {
    let s = ServerSettings { host: "0.0.0.0".to_string(), port: 8080 };
    assert_eq!(s.clone().port, 8080);
    let _ = (
        DatabaseSettings { url: "sqlite::memory:".to_string() },
        QueueSettings { capacity: 1024, redis_url: None },
        SandboxSettings { max_concurrent: 10, timeout_secs: 300, work_dir: "/tmp".to_string(), use_docker: false },
        SecuritySettings { block_on_critical: true, block_on_high: false },
        DeploymentSettings { require_consensus: 3, staging_url: None, production_url: None },
        AuthSettings { jwt_secret: "x".to_string(), token_expiry_secs: 86400 },
        TracingSettings { level: "info".to_string(), json: false },
    );
}
