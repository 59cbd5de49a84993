use devstudio::agent::{all_roles, extract_json, first_chars, line_count, system_prompt_for, AgentRole, ChangeKind, CodeChange, FreeLlmAgent, Review, Task, TaskPriority};
use devstudio::dispatcher::{claim_for, TaskStatus};
use devstudio::llm_providers::{available_providers, ollama_config, ProviderEnv};
use devstudio::llm_router::{bearer_key, c_string_text, call_result, status_ok, endpoint_url, failover_next, failover_start, json_error_text, list_free_models, listing_entry_from_lowered, reachable_status, request_max_tokens, resolve_model, FailoverStep};
use devstudio::llm_types::{ChatChoice, ChatMessage, ChatResponse, ChatUsage, FreeModel, LlmCallResult, LlmError, OpenAiModel, OpenAiModelsResponse, ProviderConfig};

fn no_keys() -> ProviderEnv {
    ProviderEnv {
        openrouter_key: None,
        groq_key: None,
        cerebras_key: None,
        sambanova_key: None,
        mistral_key: None,
        google_key: None,
        llm7_key: None,
        ollama_base_url: None,
    }
}

fn provider(name: &'static str, model: &'static str) -> ProviderConfig {
    ProviderConfig { name, base_url: "http://example/v1", api_key: None, model }
}

fn response(texts: &[&str], model: Option<&str>, total: Option<u32>) -> ChatResponse {
    ChatResponse {
        choices: texts
            .iter()
            .map(|t| ChatChoice { message: ChatMessage::assistant(t), finish_reason: None })
            .collect(),
        usage: Some(ChatUsage { prompt_tokens: None, completion_tokens: None, total_tokens: total }),
        model: model.map(|m| m.to_string()),
    }
}

#[test]
fn messages_carry_their_role() {
    let m = ChatMessage::system("be brief");
    assert_eq!((m.role.as_str(), m.content.as_str()), ("system", "be brief"));
    assert_eq!(ChatMessage::user("hi").role, "user");
    assert_eq!(ChatMessage::assistant("ok").role, "assistant");
}

#[test]
fn response_text_is_first_choice() {
    assert_eq!(response(&["a", "b"], None, None).text(), "a");
    assert_eq!(response(&[], None, None).text(), "");
}

#[test]
fn error_messages() {
    assert_eq!(LlmError::Http { status: 503, body: "busy".to_string() }.message(), "HTTP error 503: busy");
    assert_eq!(LlmError::Network("timeout".to_string()).message(), "network error: timeout");
    assert_eq!(LlmError::Json("eof".to_string()).message(), "JSON parse error: eof");
    assert_eq!(
        LlmError::NoProviders.message(),
        "no providers available — configure at least one API key or run Ollama locally"
    );
    assert_eq!(LlmError::AllFailed("x".to_string()).message(), "all providers failed: x");
    assert_eq!(
        LlmError::Provider { provider: "Groq".to_string(), message: "down".to_string() }.message(),
        "provider Groq error: down"
    );
}

#[test]
fn only_ollama_without_keys() {
    let ps = available_providers(&no_keys());
    assert_eq!(ps.len(), 1);
    assert_eq!(ps[0].name, "Ollama (local)");
    assert_eq!(ps[0].base_url, "http://localhost:11434/v1");
    assert_eq!(ps[0].model, "qwen2.5-coder:7b");
    assert!(ps[0].api_key.is_none());
}

#[test]
fn keyed_providers_in_failover_order() {
    let mut env = no_keys();
    env.llm7_key = Some("k7".to_string());
    env.groq_key = Some("gsk".to_string());
    env.openrouter_key = Some(String::new());
    env.ollama_base_url = Some("http://gpu-box:11434/v1");
    let ps = available_providers(&env);
    let names: Vec<&str> = ps.iter().map(|p| p.name).collect();
    assert_eq!(names, vec!["Groq", "LLM7", "Ollama (local)"]);
    assert_eq!(ps[0].api_key.as_deref(), Some("gsk"));
    assert_eq!(ps[0].base_url, "https://api.groq.com/openai/v1");
    assert_eq!(ps[1].model, "default");
    assert_eq!(ps[2].base_url, "http://gpu-box:11434/v1");
}

#[test]
fn all_keys_give_eight_providers() {
    let k = || Some("key".to_string());
    let env = ProviderEnv {
        openrouter_key: k(),
        groq_key: k(),
        cerebras_key: k(),
        sambanova_key: k(),
        mistral_key: k(),
        google_key: k(),
        llm7_key: k(),
        ollama_base_url: Some(""),
    };
    let ps = available_providers(&env);
    let names: Vec<&str> = ps.iter().map(|p| p.name).collect();
    assert_eq!(
        names,
        vec!["OpenRouter", "Groq", "Cerebras", "SambaNova", "Mistral", "Google AI Studio", "LLM7", "Ollama (local)"]
    );
    assert_eq!(ps[7].base_url, "http://localhost:11434/v1");
    assert_eq!(ollama_config(None).unwrap().name, "Ollama (local)");
}

#[test]
fn ollama_prefers_coding_models() {
    let ollama = ollama_config(None).unwrap();
    let avail = vec!["llama3.1:8b".to_string(), "qwen2.5-coder:7b".to_string()];
    assert_eq!(resolve_model(&ollama, &avail), "qwen2.5-coder:7b");
    let avail = vec!["codellama:7b".to_string(), "llama2:13b".to_string()];
    assert_eq!(resolve_model(&ollama, &avail), "codellama:7b");
    let avail = vec!["mistral:7b".to_string(), "phi3".to_string()];
    assert_eq!(resolve_model(&ollama, &avail), "mistral:7b");
    assert_eq!(resolve_model(&ollama, &vec![]), "qwen2.5-coder:7b");
}

#[test]
fn cloud_providers_use_their_default_model() {
    let groq = provider("Groq", "llama-3.3-70b-versatile");
    assert_eq!(resolve_model(&groq, &vec!["qwen2.5-coder".to_string()]), "llama-3.3-70b-versatile");
}

#[test]
fn endpoints_and_keys() {
    assert_eq!(endpoint_url("https://api.groq.com/openai/v1/", "/chat/completions"), "https://api.groq.com/openai/v1/chat/completions");
    assert_eq!(endpoint_url("http://x//", "/models"), "http://x/models");
    assert_eq!(endpoint_url("http://x", "/models"), "http://x/models");
    assert_eq!(bearer_key(Some("")), None);
    assert_eq!(bearer_key(Some("abc")), Some("abc"));
    assert_eq!(bearer_key(None), None);
}

#[test]
fn reachability_and_status() {
    assert!(reachable_status(Some(200)));
    assert!(reachable_status(Some(405)));
    assert!(!reachable_status(Some(404)));
    assert!(!reachable_status(None));
    assert!(status_ok(200));
    assert!(status_ok(204));
    assert!(status_ok(299));
    assert!(!status_ok(199));
    assert!(!status_ok(300));
    assert!(!status_ok(429));
}

#[test]
fn call_results() {
    let p = provider("Groq", "llama-3.3-70b-versatile");
    let r = call_result(&p, "requested".to_string(), response(&["answer"], None, Some(42))).unwrap();
    assert_eq!((r.provider, r.model.as_str(), r.text.as_str(), r.tokens), ("Groq", "requested", "answer", Some(42)));
    let r = call_result(&p, "requested".to_string(), response(&["x"], Some("served"), None)).unwrap();
    assert_eq!(r.model, "served");
    match call_result(&p, "m".to_string(), response(&[], None, None)) {
        Err(LlmError::Provider { provider, message }) => {
            assert_eq!(provider, "Groq");
            assert_eq!(message, "leere Antwort (keine choices)");
        }
        _ => panic!("expected a provider error"),
    }
}

#[test]
fn failover_stops_at_first_success() {
    let ps = vec![provider("Groq", "a"), provider("LLM7", "b")];
    assert!(matches!(failover_start(&vec![]), FailoverStep::Finished(Err(LlmError::NoProviders))));
    assert!(matches!(failover_start(&ps), FailoverStep::Try(0)));
    assert!(matches!(failover_next(&ps, 0, Err(LlmError::NoProviders)), FailoverStep::Try(1)));
    let ok = LlmCallResult { provider: "LLM7", model: "b".to_string(), text: "t".to_string(), tokens: None };
    match failover_next(&ps, 1, Ok(ok)) {
        FailoverStep::Finished(Ok(r)) => assert_eq!(r.provider, "LLM7"),
        _ => panic!("expected success"),
    }
    match failover_next(&ps, 1, Err(LlmError::Network("boom".to_string()))) {
        FailoverStep::Finished(Err(LlmError::AllFailed(m))) => assert_eq!(m, "LLM7: network error: boom"),
        _ => panic!("expected all failed"),
    }
}

#[test]
fn free_model_listing() {
    let ps = vec![
        provider("Groq", "llama-3.3-70b-versatile"),
        provider("Google AI Studio", "gemini-2.0-flash-exp"),
        ollama_config(None).unwrap(),
    ];
    let models = vec!["llama3.1:8b".to_string(), "codellama:7b".to_string()];
    assert_eq!(
        list_free_models(&ps, &models),
        vec![
            "groq/llama-3.3-70b-versatile",
            "google-ai-studio/gemini-2.0-flash-exp",
            "ollama/llama3.1:8b",
            "ollama/codellama:7b"
        ]
    );
}

#[test]
fn listing_entries_from_lowered_names() {
    assert_eq!(listing_entry_from_lowered("google ai studio", "gemini-2.0-flash-exp"), "google-ai-studio/gemini-2.0-flash-exp");
    assert_eq!(listing_entry_from_lowered("groq", "m"), "groq/m");
    assert_eq!(listing_entry_from_lowered("", ""), "/");
}

#[test]
fn c_interface_texts() {
    assert_eq!(json_error_text("a\nb"), "{\"error\":\"a\\u000ab\"}");
    assert_eq!(json_error_text("C:\\x"), "{\"error\":\"C:\\\\x\"}");
    assert_eq!(json_error_text("tab\there\u{1f}"), "{\"error\":\"tab\\u0009here\\u001f\"}");
    for msg in ["a\nb", "x\\y\"z", "\u{0}\u{7}é"] {
        let v: serde_json::Value = serde_json::from_str(&json_error_text(msg)).unwrap();
        assert!(v["error"].is_string());
    }
    assert_eq!(json_error_text("say \"hi\""), "{\"error\":\"say 'hi'\"}");
    assert_eq!(c_string_text("a\0b\0"), "ab");
    assert_eq!(request_max_tokens(None), 4096);
    assert_eq!(request_max_tokens(Some(12)), 12);
}

#[test]
fn model_records() {
    let m = FreeModel { id: "llama3", name: "Llama 3", context_window: 8192, max_tokens: 4096, reasoning: false };
    assert_eq!(m.clone().id, "llama3");
    let listing = OpenAiModelsResponse { data: vec![OpenAiModel { id: "a".to_string() }] };
    assert_eq!(listing.data[0].id, "a");
}

fn task(id: u128, role: Option<AgentRole>) -> Task {
    Task { id, title: "Feature X".to_string(), description: "Build it".to_string(), required_role: role, priority: TaskPriority::Normal, project_id: 1, status: TaskStatus::Pending }
}

#[test]
fn prompts_per_role() {
    assert!(system_prompt_for(&AgentRole::Coding).starts_with("Du bist ein Senior Software Engineer. Schreibe sauberen"));
    assert!(system_prompt_for(&AgentRole::Testing).contains("Strebe ≥80 % Abdeckung an."));
    assert!(system_prompt_for(&AgentRole::Requirements).ends_with("Antworte präzise auf Deutsch oder Englisch."));
}

#[test]
fn role_names() {
    assert_eq!(FreeLlmAgent::new(AgentRole::Security).role_name(), "security");
    assert_eq!(FreeLlmAgent::coding().role_name(), "coding");
    assert_eq!(FreeLlmAgent::coding().max_tokens, 4096);
    for _ in 0..20 {
        let id = FreeLlmAgent::coding().id;
        assert_eq!((id >> 76) & 0xf, 4);
        assert_eq!((id >> 62) & 0x3, 2);
    }
}

#[test]
fn claiming_tasks() {
    let coder = FreeLlmAgent::coding();
    let tester = FreeLlmAgent::new(AgentRole::Testing);
    assert!(coder.claim_task(&task(1, None), 5).is_some());
    assert!(tester.claim_task(&task(1, None), 5).is_none());
    let c = tester.claim_task(&task(7, Some(AgentRole::Testing)), 99).unwrap();
    assert_eq!((c.task_id, c.agent_id, c.role, c.claimed_at_ms), (7, tester.id, AgentRole::Testing, 99));
    assert!(coder.claim_task(&task(7, Some(AgentRole::Testing)), 5).is_none());
}

#[test]
fn dispatch_claims_go_to_the_first_taker() {
    let agents = all_roles();
    let (i, c) = claim_for(&agents, &task(3, None), 10).unwrap();
    assert_eq!((i, c.role, c.task_id, c.claimed_at_ms), (2, AgentRole::Coding, 3, 10));
    assert_eq!(c.agent_id, agents[2].1.id);
    let (i, c) = claim_for(&agents, &task(4, Some(AgentRole::Security)), 11).unwrap();
    assert_eq!((i, c.role), (4, AgentRole::Security));
    let testers_only = vec![(AgentRole::Testing, std::sync::Arc::new(FreeLlmAgent::new(AgentRole::Testing)))];
    assert!(claim_for(&testers_only, &task(5, None), 0).is_none());
    assert!(claim_for(&Vec::new(), &task(5, Some(AgentRole::Coding)), 0).is_none());
}

#[test]
fn execute_prompt_and_output() {
    let coder = FreeLlmAgent::coding();
    let t = task(0xa1a2a3a4b1b2c1c2d1d2d3d4d5d6d7d8, None);
    assert_eq!(
        coder.execute_prompt(&t),
        "Aufgabe: Feature X\n\nBeschreibung:\nBuild it\n\nErstelle eine vollständige Implementierung."
    );
    let out = coder.build_output(&t, "fn main() {}\n".to_string());
    assert_eq!(out.summary, "[coding] free-llm: Feature X");
    assert_eq!(out.changes.len(), 1);
    assert_eq!(out.changes[0].path, "src/generated/a1a2a3a4-b1b2-c1c2-d1d2-d3d4d5d6d7d8.rs");
    assert_eq!(out.changes[0].kind, ChangeKind::Created);
    assert_eq!(out.changes[0].checksum, "536e506bb90914c243a12b397b9a998f85ae2cbd9ba02dfd03a9e155ca5ca0f4");
    assert_eq!(out.metadata.lines, 1);
    assert_eq!(out.metadata.provider, "free-llm-router");
    assert_eq!(out.metadata.plugin_id, "forgefabrik.llm-free");
    assert_eq!(out.metadata.agent_role, "coding");
}

#[test]
fn output_paths_per_role() {
    let t = task(1, None);
    assert_eq!(FreeLlmAgent::new(AgentRole::Testing).output_path(t.id), "tests/generated/00000000-0000-0000-0000-000000000001.rs");
    assert_eq!(FreeLlmAgent::new(AgentRole::Deployment).output_path(t.id), "deploy/generated/00000000-0000-0000-0000-000000000001.yaml");
    assert_eq!(FreeLlmAgent::new(AgentRole::Security).output_path(t.id), "docs/generated/00000000-0000-0000-0000-000000000001.md");
}

#[test]
fn counting_lines() {
    assert_eq!(line_count(""), 0);
    assert_eq!(line_count("a"), 1);
    assert_eq!(line_count("a\n"), 1);
    assert_eq!(line_count("a\nb"), 2);
    assert_eq!(line_count("a\r\nb\r\n"), 2);
    assert_eq!(line_count("\n\n"), 2);
}

#[test]
fn reply_falls_back_to_mock() {
    let t = FreeLlmAgent::reply_text(Err(LlmError::NoProviders));
    assert!(t.starts_with("// FreeLlmAgent Mock — kein Provider verfügbar\n// Fehler: no providers available"));
    assert!(t.ends_with("// oder starte Ollama lokal.\nfn placeholder() {}\n"));
    let ok = LlmCallResult { provider: "Groq", model: "m".to_string(), text: "code".to_string(), tokens: None };
    assert_eq!(FreeLlmAgent::reply_text(Ok(ok)), "code");
}

#[test]
fn review_prompt_and_fallback() {
    let agent = FreeLlmAgent::new(AgentRole::Security);
    let change = CodeChange { path: "src/a.rs".to_string(), kind: ChangeKind::Created, content: "x".repeat(3100), checksum: String::new() };
    let p = agent.review_prompt(&change);
    assert!(p.starts_with("Reviewe diesen Code-Änderung und antworte als JSON:\n{\"approved\": true/false, \"comments\": [\"...\"], \"score\": 0-100}\n\nDatei: src/a.rs\n```\n"));
    assert_eq!(p.matches('x').count(), 3000);
    assert!(p.ends_with("\n```"));
    let r = FreeLlmAgent::review_from_reply(None, "looks fine");
    assert!(r.approved);
    assert_eq!(r.score, 75);
    assert_eq!(r.comments, vec!["Review (free-llm): looks fine".to_string()]);
    let parsed = Review { approved: false, comments: vec!["no".to_string()], score: 10 };
    let r = FreeLlmAgent::review_from_reply(Some(parsed), "ignored");
    assert!(!r.approved && r.score == 10);
    assert_eq!(first_chars("abcdef", 3), "abc");
    assert_eq!(first_chars("ab", 3), "ab");
}

#[test]
fn json_extraction() {
    assert_eq!(extract_json("Here:\n```json\n  {\"approved\": true}  \n```\nbye"), "{\"approved\": true}");
    assert_eq!(extract_json("prefix {\"a\": {\"b\": 2}} suffix"), "{\"a\": {\"b\": 2}}");
    assert_eq!(extract_json("no json here"), "no json here");
    assert_eq!(extract_json("```json {\"x\":1}"), "{\"x\":1}");
    assert_eq!(extract_json("}{"), "");
}

#[test]
fn bare_object_comes_back_unchanged() {
    let s = "{\"score\": 80, \"approved\": true}";
    assert_eq!(extract_json(s), s);
}

#[test]
fn six_agents() {
    let roles: Vec<AgentRole> = all_roles().iter().map(|(r, a)| { assert_eq!(*r, a.role); *r }).collect();
    assert_eq!(
        roles,
        vec![AgentRole::Requirements, AgentRole::Architecture, AgentRole::Coding, AgentRole::Testing, AgentRole::Security, AgentRole::Deployment]
    );
}
