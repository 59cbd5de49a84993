use devstudio::agent::{extract_json_would_panic, AgentRole, Task, TaskPriority};
use devstudio::app_error::AppError;
use devstudio::auth::{authenticate, claims_from_decoded, issue_token, TokenErrorKind, TokenRequest};
use devstudio::config::{flag_or, number_or, option_text, settings_from, text_or, EnvValues};
use devstudio::dispatcher::{after_poll, mark_in_progress, PollOutcome, TaskStatus, BACKOFF_START_MS};
use devstudio::queue::{redis_list_key, redis_nack_step, QueueItem, RedisList};
use devstudio::sandbox::{container_spec, docker_sandbox, local_sandbox, restore_spec, LocalSandboxes, SandboxStatus, CPU_PERIOD, CPU_QUOTA, MEMORY_LIMIT};

fn no_env() -> EnvValues {
    EnvValues {
        server_host: None,
        server_port: None,
        database_url: None,
        queue_capacity: None,
        redis_url: None,
        sandbox_max: None,
        sandbox_timeout_secs: None,
        sandbox_work_dir: None,
        sandbox_use_docker: None,
        sec_block_critical: None,
        sec_block_high: None,
        deploy_consensus: None,
        deploy_staging_url: None,
        deploy_production_url: None,
        anthropic_api_key: None,
        openai_api_key: None,
        agent_model: None,
        agent_max_tokens: None,
        jwt_secret: None,
        jwt_expiry_secs: None,
        log_level: None,
        log_json: None,
    }
}

fn some(s: &str) -> Option<String> {
    Some(s.to_string())
}

#[test]
fn settings_defaults() {
    let s = settings_from(&no_env());
    assert_eq!((s.server.host.as_str(), s.server.port), ("0.0.0.0", 8080));
    assert_eq!(s.database.url, "sqlite::memory:");
    assert_eq!((s.queue.capacity, s.queue.redis_url.is_none()), (1024, true));
    assert_eq!((s.sandbox.max_concurrent, s.sandbox.timeout_secs, s.sandbox.use_docker), (10, 300, false));
    assert_eq!(s.sandbox.work_dir, "/tmp/devstudio/sandboxes");
    assert_eq!((s.security.block_on_critical, s.security.block_on_high), (true, false));
    assert_eq!(s.deployment.require_consensus, 3);
    assert_eq!((s.agents.max_tokens, s.agents.model.is_none()), (8192, true));
    assert_eq!((s.auth.jwt_secret.as_str(), s.auth.token_expiry_secs), ("change-me-in-production", 86400));
    assert_eq!((s.tracing.level.as_str(), s.tracing.json), ("info", false));
}

#[test]
fn settings_overrides_and_fallbacks() {
    let mut v = no_env();
    v.server_port = some("9090");
    v.queue_capacity = some("abc");
    v.sandbox_use_docker = some("YES");
    v.sec_block_critical = some("no");
    v.log_json = some("1");
    v.redis_url = some("");
    v.agent_model = some("m");
    v.server_host = some("");
    let s = settings_from(&v);
    assert_eq!(s.server.port, 9090);
    assert_eq!(s.server.host, "0.0.0.0");
    assert_eq!(s.queue.capacity, 1024);
    assert!(s.sandbox.use_docker);
    assert!(!s.security.block_on_critical);
    assert!(s.tracing.json);
    assert!(s.queue.redis_url.is_none());
    assert_eq!(s.agents.model.as_deref(), Some("m"));
    let mut v = no_env();
    v.server_port = some("70000");
    assert_eq!(settings_from(&v).server.port, 8080);
    assert_eq!(number_or(&some("+12"), 1, 100), 12);
    assert_eq!(number_or(&some("101"), 1, 100), 1);
    assert!(flag_or(&some("True"), false));
    assert!(!flag_or(&some("on"), true));
    assert!(flag_or(&None, true));
    assert_eq!(text_or(&some("x"), "d"), "x");
    assert_eq!(option_text(&some("")), None);
}

#[test]
fn container_isolation() {
    let c = container_spec("img:1", 0xa1a2a3a4b1b2c1c2d1d2d3d4d5d6d7d8);
    assert_eq!(c.name, "devstudio-sb-a1a2a3a4");
    assert_eq!(c.image, "img:1");
    assert_eq!(c.cmd, vec!["sleep".to_string(), "3600".to_string()]);
    assert!(c.network_disabled);
    assert_eq!((c.cpu_quota, c.cpu_period, c.memory), (50_000, 100_000, 128 * 1024 * 1024));
    assert_eq!((c.memory_swap, c.oom_kill_disable, c.readonly_rootfs), (Some(MEMORY_LIMIT), Some(false), Some(false)));
    assert_eq!((CPU_QUOTA, CPU_PERIOD), (50_000, 100_000));
    let r = restore_spec("snap:1", 1);
    assert_eq!((r.name.as_str(), r.image.as_str()), ("devstudio-sb-00000000", "snap:1"));
    assert!(r.network_disabled && r.memory_swap.is_none() && r.oom_kill_disable.is_none());
}

#[test]
fn sandbox_records() {
    let sb = docker_sandbox(1, 2);
    assert_eq!((sb.id, sb.project_id, sb.status), (1, 2, SandboxStatus::Ready));
    assert_eq!(sb.runtime_id.as_deref(), Some("devstudio-sb-00000000"));
    assert_eq!(sb.work_dir, "/workspace/00000000-0000-0000-0000-000000000001");
    let sb = local_sandbox(3, 4, "/tmp/x".to_string());
    assert_eq!((sb.id, sb.project_id, sb.status, sb.runtime_id.is_none(), sb.work_dir.as_str()), (3, 4, SandboxStatus::Ready, true, "/tmp/x"));
}

fn decode(token: &str, secret: &str) -> serde_json::Value {
    let key = jsonwebtoken::DecodingKey::from_secret(secret.as_bytes());
    let mut validation = jsonwebtoken::Validation::default();
    validation.validate_exp = false;
    jsonwebtoken::decode::<serde_json::Value>(token, &key, &validation).unwrap().claims
}

#[test]
fn tokens_are_issued_and_checked() {
    let req = TokenRequest { sub: "dev".to_string(), secret: "s3".to_string() };
    let token = issue_token(&req, "s3", 1_000, 60).unwrap();
    let claims = decode(&token, "s3");
    assert_eq!((claims["sub"].as_str(), claims["exp"].as_u64(), claims["iat"].as_u64()), (Some("dev"), Some(1_060), Some(1_000)));
    assert!(!token.is_empty());
    let keys: Vec<String> = match decode(&token, "s3") {
        serde_json::Value::Object(m) => m.keys().cloned().collect(),
        _ => panic!("claims are an object"),
    };
    assert_eq!(keys, vec!["sub", "exp", "iat"]);
    assert_eq!(issue_token(&req, "other", 1, 1).unwrap_err().message, "Falsches Secret");
    let now = std::time::SystemTime::now().duration_since(std::time::UNIX_EPOCH).unwrap().as_secs();
    let fresh = issue_token(&req, "s3", now, 3600).unwrap();
    let header = format!("Bearer {fresh}");
    let c = authenticate(Some(&header), "s3").unwrap();
    assert_eq!((c.sub.as_str(), c.iat, c.exp), ("dev", now, now + 3600));
    assert_eq!(authenticate(Some(&header), "wrong").unwrap_err().message, "Ungültige Signatur");
    let old = format!("Bearer {}", issue_token(&req, "s3", 1_000, 60).unwrap());
    assert_eq!(authenticate(Some(&old), "s3").unwrap_err().message, "Token abgelaufen");
    assert_eq!(authenticate(Some("Bearer x"), "s3").unwrap_err().message, "Ungültiges Token-Format");
    assert_eq!(authenticate(None, "s3").unwrap_err().message, "Authorization header fehlt");
    assert_eq!(authenticate(Some("Basic x"), "s3").unwrap_err().message, "Bearer-Token erwartet");
}

#[test]
fn decoded_claims() {
    let c = claims_from_decoded(Ok((Some("a".to_string()), Some(2), Some(1)))).unwrap();
    assert_eq!((c.sub.as_str(), c.exp, c.iat), ("a", 2, 1));
    assert_eq!(claims_from_decoded(Ok((None, Some(2), Some(1)))).unwrap_err().message, "Token-Validierung fehlgeschlagen");
    assert_eq!(claims_from_decoded(Err(TokenErrorKind::ExpiredSignature)).unwrap_err().message, "Token abgelaufen");
}

#[test]
fn extraction_panic_condition() {
    assert!(extract_json_would_panic("} then {"));
    assert!(!extract_json_would_panic("}{"));
    assert!(!extract_json_would_panic("{\"a\":1}"));
    assert!(!extract_json_would_panic("```json\n} x {\n```"));
    assert!(extract_json_would_panic("```json } x {"));
    assert!(!extract_json_would_panic("no braces"));
}

#[test]
fn dispatch_start_and_backoff_doubling() {
    let t = Task { id: 9, title: "t".to_string(), description: String::new(), required_role: Some(AgentRole::Coding), priority: TaskPriority::High, project_id: 7, status: TaskStatus::Pending };
    let u = mark_in_progress(&t);
    assert_eq!((u.id, u.title.as_str(), u.priority, u.project_id, u.status), (9, "t", TaskPriority::High, 7, TaskStatus::InProgress));
    assert_eq!(t.status, TaskStatus::Pending);
    let mut b = BACKOFF_START_MS;
    let mut waits = Vec::new();
    for _ in 0..10 {
        let (wait, next) = after_poll(PollOutcome::Failed, b);
        waits.push(wait);
        b = next;
    }
    assert_eq!(waits, vec![200, 400, 800, 1600, 3200, 6400, 12800, 25600, 30000, 30000]);
}

#[test]
fn redis_failed_items() {
    let t = Task { id: 5, title: "t".to_string(), description: String::new(), required_role: None, priority: TaskPriority::Low, project_id: 7, status: TaskStatus::Pending };
    let (list, item) = redis_nack_step(QueueItem { task: t.clone(), attempts: 0 });
    assert_eq!((list, item.attempts, item.task.id), (RedisList::Tasks, 1, 5));
    let (list, item) = redis_nack_step(QueueItem { task: t, attempts: 4 });
    assert_eq!((list, item.attempts), (RedisList::DeadLetters, 5));
    assert_eq!(redis_list_key(RedisList::Tasks), "devstudio:queue:tasks");
    assert_eq!(redis_list_key(RedisList::DeadLetters), "devstudio:queue:dead");
}

#[test]
fn local_sandbox_registry() {
    let mut reg = LocalSandboxes::new();
    reg.register(&local_sandbox(1, 2, "/tmp/a".to_string()));
    assert_eq!(reg.work_dir(1).unwrap(), "/tmp/a");
    match reg.work_dir(3) {
        Err(AppError::NotFound(m)) => assert_eq!(m, "sandbox 00000000-0000-0000-0000-000000000003"),
        _ => panic!("expected not found"),
    }
    reg.forget(1);
    assert!(reg.work_dir(1).is_err());
}
