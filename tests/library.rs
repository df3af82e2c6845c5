use ifm_ruta::errors::ValidationError;
use ifm_ruta::json::{integer, to_json_text, JsonValue};
use ifm_ruta::models::{
    AppSettings, Feedback, LogLevel, ProjectMetadata, ProjectSettings, SerializationFormat,
    SerializationManager, SettingsManagerImpl, Theme,
};
use ifm_ruta::process::{ProcessError, ProcessManagerImpl, ProcessStatus};
use ifm_ruta::storage::{
    gitignore_update, new_session_id, plan_storage_setup, readme_text, session_id_for,
    ConversationLogger, ConversationManager, ConversationMessage, StorageState,
};
use ifm_ruta::text::{contains_text, first_word, trim, trim_end};
use ifm_ruta::validation::{
    CommandValidationRule, InputValidator, PathValidationRule, Rule, ValidationRule,
};
use std::path::PathBuf;
use std::time::Duration;

fn message_of(r: Result<(), ValidationError>) -> String {
    match r {
        Err(ValidationError::InvalidInput { message }) => message,
        _ => panic!("expected a rejection"),
    }
}

#[test]
fn json_text_escapes_strings() {
    let v = JsonValue::Object(vec![
        ("a\"b".to_string(), JsonValue::Str("x\\y\nz\t\u{1}".to_string())),
        ("n".to_string(), JsonValue::Array(vec![JsonValue::Null, JsonValue::Bool(true), JsonValue::Bool(false)])),
        ("e".to_string(), JsonValue::Object(vec![])),
        ("u".to_string(), JsonValue::Str("é".to_string())),
    ]);
    assert_eq!(
        to_json_text(&v),
        "{\"a\\\"b\":\"x\\\\y\\nz\\t\\u0001\",\"n\":[null,true,false],\"e\":{},\"u\":\"é\"}"
    );
}

#[test]
fn json_text_of_numbers() {
    assert_eq!(to_json_text(&integer(-32601)), "-32601");
    assert_eq!(to_json_text(&integer(0)), "0");
    assert_eq!(to_json_text(&integer(i32::MIN)), "-2147483648");
    assert_eq!(to_json_text(&JsonValue::Number("1.5e3".to_string())), "1.5e3");
}

#[test]
fn json_lookup() {
    let v = JsonValue::Object(vec![
        ("k".to_string(), JsonValue::Str("one".to_string())),
        ("k".to_string(), JsonValue::Str("two".to_string())),
    ]);
    match v.get("k").and_then(|x| x.as_str()) {
        Some(s) => assert_eq!(s, "one"),
        None => panic!("member k is there"),
    }
    assert!(v.get("missing").is_none());
    assert!(JsonValue::Null.get("k").is_none());
    assert!(v.is_object());
}

#[test]
fn trimming_and_words() {
    assert_eq!(trim("  hello world \n"), "hello world");
    assert_eq!(trim("\u{a0}x\u{2003}"), "x");
    assert_eq!(trim(" \t "), "");
    assert_eq!(trim_end("a b\n\n"), "a b");
    assert_eq!(first_word("  ls -la"), "ls");
    assert_eq!(first_word("   "), "");
    assert!(contains_text("a..b", ".."));
    assert!(!contains_text("a.b", ".."));
    assert!(contains_text("x", ""));
}

#[test]
fn gitignore_rules() {
    assert_eq!(gitignore_update(None).as_deref(), Some(".ifm-ruta/\n"));
    assert_eq!(gitignore_update(Some("target/\n\n")).as_deref(), Some("target/\n.ifm-ruta/\n"));
    assert_eq!(gitignore_update(Some("target/\n.ifm-ruta/\n")), None);
}

#[test]
fn storage_setup_is_idempotent() {
    let first = StorageState { has_history_dir: false, has_readme: false, gitignore: Some("node_modules/".to_string()) };
    let plan = plan_storage_setup(&first);
    assert!(plan.create_history_dir);
    assert!(plan.write_readme);
    let written = plan.gitignore.clone().expect("an entry to add");
    assert_eq!(written, "node_modules/\n.ifm-ruta/\n");
    let second = StorageState { has_history_dir: true, has_readme: true, gitignore: Some(written) };
    let again = plan_storage_setup(&second);
    assert!(!again.create_history_dir);
    assert!(!again.write_readme);
    assert!(again.gitignore.is_none());
    assert!(readme_text().starts_with("# IFM-Ruta Conversation History"));
}

#[test]
fn session_ids() {
    assert_eq!(session_id_for("0123456789abcdef"), "cursor-chat-01234567");
    let id = new_session_id();
    assert!(id.starts_with("cursor-chat-"));
    assert_eq!(id.len(), 20);
    assert_ne!(new_session_id(), new_session_id());
}

#[test]
fn session_document() {
    let mut log = ConversationLogger::new("/p");
    assert_eq!(log.get_session_id().len(), 36);
    log.log_user_message("hi");
    log.log_assistant_message("hello");
    let doc = to_json_text(&log.session().to_json());
    assert!(doc.starts_with(&format!("{{\"session_id\":\"{}\",\"project_directory\":\"/p\",\"messages\":[{{\"role\":\"user\",\"content\":\"hi\"", log.get_session_id())));
}

#[test]
fn logger_keeps_latest_five() {
    let mut log = ConversationLogger::new("/p");
    for i in 0..7 {
        log.log_user_message(&format!("m{}", i));
    }
    let h = log.get_conversation_history();
    let texts: Vec<&str> = h.iter().map(|m| m.content.as_str()).collect();
    assert_eq!(texts, vec!["m2", "m3", "m4", "m5", "m6"]);
    assert_eq!(log.messages.len(), 7);
    let old = log.get_session_id().to_string();
    log.new_session();
    assert_ne!(log.get_session_id(), old);
    assert!(log.messages.is_empty());
}

#[test]
fn conversation_manager_is_bounded() {
    let mut m = ConversationManager { conversations: vec![], max_size: 2 };
    m.add_conversation("user", "a");
    m.add_conversation("assistant", "b");
    m.add_conversation("user", "c");
    let all = m.get_conversations();
    assert_eq!(all.len(), 2);
    assert_eq!(all[0].content, "b");
    assert_eq!(all[1].content, "c");
    m.clear();
    assert!(m.get_conversations().is_empty());
    let mut z = ConversationManager { conversations: vec![], max_size: 0 };
    z.add_conversation("user", "a");
    assert!(z.conversations.is_empty());
    let msg = ConversationMessage::new("user", "x", "t");
    assert_eq!(msg.duplicate().content, "x");
}

#[test]
fn command_rule() {
    let open = CommandValidationRule::new(vec![]);
    assert!(open.validate("anything goes").is_ok());
    assert_eq!(message_of(open.validate("cat ../x")), "Path traversal detected");
    assert_eq!(message_of(open.validate("a; b")), "Dangerous characters detected");
    assert_eq!(message_of(open.validate("a | b")), "Dangerous characters detected");
    let listed = CommandValidationRule::new(vec!["ls".to_string(), "git".to_string()]);
    assert!(listed.validate("  git status").is_ok());
    assert_eq!(message_of(listed.validate("rm -rf x")), "Command not allowed: rm");
    assert_eq!(message_of(listed.validate("")), "Command not allowed: ");
    assert_eq!(listed.rule_name(), "CommandValidationRule");
}

#[test]
fn path_rule() {
    let p = PathValidationRule::new();
    assert!(p.validate("src/main.rs").is_ok());
    assert_eq!(message_of(p.validate("/etc/passwd")), "Absolute paths not allowed");
    assert_eq!(message_of(p.validate("\\share")), "Absolute paths not allowed");
    assert_eq!(message_of(p.validate("a/../b")), "Path traversal detected");
    assert_eq!(p.rule_name(), "PathValidationRule");
}

#[test]
fn validator_reports_first_rejection() {
    let mut v = InputValidator::new();
    assert!(v.validate("/x").is_ok());
    v.add_rule(Rule::Command(CommandValidationRule::new(vec!["ls".to_string()])));
    v.add_rule(Rule::Path(PathValidationRule::new()));
    assert_eq!(message_of(v.validate("/x")), "Command not allowed: /x");
    assert_eq!(message_of(v.validate("ls ../x")), "Path traversal detected");
    assert!(v.validate("ls x").is_ok());
}

#[test]
fn feedback_record() {
    let mut f = Feedback::new(PathBuf::from("/p"), "sum".to_string());
    assert_eq!(f.metadata.tool_name, "interactive_feedback");
    assert!(f.command_logs.is_empty());
    f.set_command_logs("log".to_string());
    f.set_interactive_feedback("ok".to_string());
    f.set_conversation_history("h".to_string());
    f.add_executed_command("ls".to_string());
    f.set_execution_time(Duration::from_secs(2));
    f.set_user_interaction_time(Duration::from_secs(3));
    assert_eq!(f.command_logs, "log");
    assert_eq!(f.interactive_feedback, "ok");
    assert_eq!(f.conversation_history, "h");
    assert_eq!(f.metadata.commands_executed, vec!["ls".to_string()]);
    assert_eq!(f.metadata.execution_time, Duration::from_secs(2));
    assert_eq!(f.metadata.user_interaction_time, Duration::from_secs(3));
    assert_eq!(f.summary, "sum");
}

#[test]
fn default_settings() {
    let s = AppSettings::default();
    assert_eq!(s.general.log_level, LogLevel::Info);
    assert_eq!(s.general.timeout, Duration::from_secs(300));
    assert_eq!(s.ui.theme, Theme::Auto);
    assert_eq!(s.security.max_process_time, Duration::from_secs(60));
    assert_eq!(s.performance.max_memory_usage, 104857600);
    let p = ProjectSettings::default();
    assert_eq!(p.ui_state.window_size, (800, 600));
    assert_eq!(ProjectMetadata::default().version, "1.0.0");
    let m = SettingsManagerImpl::new();
    assert!(m.settings_path.ends_with("ifm-ruta/settings.toml"));
    assert_eq!(SerializationManager::new(SerializationFormat::Yaml).format, SerializationFormat::Yaml);
}

#[test]
fn process_bookkeeping() {
    let mut pm = ProcessManagerImpl::new();
    let h = pm.register_process("ls", vec!["-l".to_string()], PathBuf::from("."));
    assert_eq!(h.status, ProcessStatus::Running);
    assert_eq!(pm.status_of(&h.id), Some(ProcessStatus::Running));
    assert!(pm.kill_process(&h).is_ok());
    assert_eq!(pm.status_of(&h.id), Some(ProcessStatus::Killed));
    let done = pm.wait_for_process(&h, Duration::from_millis(5));
    match done {
        Ok(res) => {
            assert_eq!(res.exit_code, 0);
            assert_eq!(res.duration, Duration::from_millis(5));
        }
        Err(_) => panic!("waiting reports a clean exit"),
    }
    assert_eq!(pm.status_of(&h.id), Some(ProcessStatus::Completed));
    assert!(pm.get_process_output(&h).map(|o| o.is_complete).unwrap_or(false));
    pm.forget_process(&h.id);
    match pm.kill_process(&h) {
        Err(ProcessError::ProcessNotFound { id }) => assert_eq!(id, h.id),
        _ => panic!("a forgotten process is not found"),
    }
}

#[test]
fn history_list_loads_latest_messages() {
    let mut a = ConversationLogger::new("/p");
    a.log_user_message("one");
    a.log_assistant_message("two");
    let mut b = ConversationLogger::new("/p");
    b.log_user_message("three");
    let sessions = vec![a.session(), b.session()];
    let m = ConversationManager::new_with_sessions(2, &sessions);
    let texts: Vec<String> = m.get_conversations().into_iter().map(|e| e.content).collect();
    assert_eq!(texts, vec!["two".to_string(), "three".to_string()]);
    assert_eq!(m.conversations[1].role, "user");
    let all = ConversationManager::new_with_sessions(10, &sessions);
    assert_eq!(all.conversations.len(), 3);
}
