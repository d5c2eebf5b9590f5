use termgate::autocomplete::{get_command_suggestions, get_option_suggestions, get_path_suggestions, get_word_at_cursor, SuggestionType};
use termgate::errors::AppError;
use termgate::session::{file_info, validate_config, RemoteEntry, SSHConnectionConfig, SSHManager};

fn config(id: &str) -> SSHConnectionConfig {
    SSHConnectionConfig {
        id: id.to_string(),
        hostname: "localhost".to_string(),
        port: 22,
        username: "testuser".to_string(),
        password: Some("testpass".to_string()),
        private_key: None,
        passphrase: None,
        keep_alive: Some(true),
        ready_timeout: Some(5000),
    }
}

#[test]
fn test_ssh_manager_creation() {
    let manager = SSHManager::new();
    assert_eq!(manager.get_active_session_count(), 0);
}

#[test]
fn test_session_creation() {
    let mut manager = SSHManager::new();
    let result = manager.create_session(config("test-config"), 100);
    assert!(result.is_ok());
    let session = result.unwrap();
    assert!(!session.id.is_empty());
    assert_eq!(session.config.hostname, "localhost");
    assert_eq!(session.config.username, "testuser");
}

#[test]
fn test_session_not_found_error() {
    let manager = SSHManager::new();
    let result = manager.get_session(&"non-existent".to_string());
    assert!(result.is_err());
    if let Err(error) = result {
        assert_eq!(error.error_code(), "SESSION_NOT_FOUND");
    }
}

#[test]
fn mod_test_graceful_shutdown() {
    let mut manager = SSHManager::new();
    let result = manager.graceful_shutdown();
    assert!(result.is_ok());
}

#[test]
fn test_autocomplete_word_parsing() {
    let (word, start) = get_word_at_cursor("ls -la", 2);
    assert_eq!(word, "ls");
    assert_eq!(start, 0);

    let (word, start) = get_word_at_cursor("cd /home", 8);
    assert_eq!(word, "/home");
    assert_eq!(start, 3);
}

#[test]
fn test_command_suggestions() {
    let suggestions = get_command_suggestions("l");
    assert!(!suggestions.is_empty());
    let ls_suggestion = suggestions.iter().find(|s| s.text == "ls");
    assert!(ls_suggestion.is_some());
    if let Some(suggestion) = ls_suggestion {
        assert_eq!(suggestion.suggestion_type, SuggestionType::Command);
        assert!(suggestion.description.is_some());
    }
}

#[test]
fn test_option_suggestions() {
    let suggestions = get_option_suggestions("-");
    assert!(!suggestions.is_empty());
    let help_suggestion = suggestions.iter().find(|s| s.text == "--help");
    assert!(help_suggestion.is_some());
}

#[test]
fn test_ssh_session_lifecycle() {
    let mut ssh_manager = SSHManager::new();
    let session_result = ssh_manager.create_session(config("s1"), 1);
    assert!(session_result.is_ok(), "Should be able to create SSH session");
    let session = session_result.unwrap();
    let session_id = &session.id;
    let sessions = ssh_manager.list_sessions();
    assert_eq!(sessions.len(), 1, "Should have one session");
    assert_eq!(sessions[0].id, *session_id, "Session ID should match");
    let session_info = ssh_manager.get_session_info(session_id);
    assert!(session_info.is_ok(), "Should be able to get session info");
    let disconnect_result = ssh_manager.disconnect(session_id);
    assert!(disconnect_result.is_ok(), "Should be able to disconnect session");
    let shutdown_result = ssh_manager.graceful_shutdown();
    assert!(shutdown_result.is_ok(), "SSH manager should shutdown gracefully");
}

#[test]
fn test_error_handling() {
    let mut ssh_manager = SSHManager::new();
    let result = ssh_manager.get_session(&"non-existent-id".to_string());
    assert!(result.is_err(), "Should return error for non-existent session");
    if let Err(error) = result {
        assert_eq!(error.error_code(), "SESSION_NOT_FOUND");
        assert!(error.to_string().contains("non-existent-id"));
    }
    let disconnect_result = ssh_manager.disconnect(&"non-existent-id".to_string());
    assert!(disconnect_result.is_ok(), "Disconnect should handle non-existent sessions gracefully");
}

#[test]
fn test_autocomplete_functionality() {
    let mut ssh_manager = SSHManager::new();
    let session = ssh_manager.create_session(config("auto"), 1).unwrap();
    let suggestions_result = ssh_manager.get_autocomplete_suggestions(&session.id, "l", 1);
    assert!(suggestions_result.is_err(), "Should fail without SSH connection");
    if let Err(error) = suggestions_result {
        assert_eq!(error.error_code(), "CONNECTION_FAILED");
    }
}

#[test]
fn invalid_configurations_are_rejected() {
    let mut c = config("x");
    c.hostname = String::new();
    assert!(matches!(validate_config(&c), Err(AppError::InvalidConfiguration(_))));
    let mut c = config("x");
    c.port = 0;
    assert!(matches!(validate_config(&c), Err(AppError::InvalidConfiguration(_))));
    let mut c = config("x");
    c.password = None;
    assert!(matches!(validate_config(&c), Err(AppError::InvalidConfiguration(_))));
    let mut c = config("x");
    c.private_key = Some("KEY".to_string());
    assert!(matches!(validate_config(&c), Err(AppError::InvalidConfiguration(_))));
    let mut c = config("x");
    c.username = String::new();
    let mut manager = SSHManager::new();
    let err = manager.create_session(c, 0).unwrap_err();
    assert_eq!(err.error_code(), "INVALID_CONFIG");
    assert_eq!(manager.get_active_session_count(), 0);
}

#[test]
fn disconnect_releases_every_handle() {
    let mut m = SSHManager::new();
    let id = "s1".to_string();
    m.create_session(config("s1"), 10).unwrap();
    m.mark_connected(&id, 20).unwrap();
    m.create_shell(&id, 30).unwrap();
    m.create_sftp(&id).unwrap();
    assert_eq!(m.get_session_info(&id).unwrap(), (true, true, true));
    m.disconnect(&id).unwrap();
    assert_eq!(m.get_session_info(&id).unwrap(), (false, false, false));
    assert!(!m.is_session_connected(&id));
    m.write_to_shell(&id, 40).unwrap();
    assert_eq!(m.get_session_info(&id).unwrap(), (false, false, false));
    assert!(matches!(m.create_shell(&id, 50), Err(AppError::SSHConnectionFailed(_))));
    m.remove_session(&id).unwrap();
    assert!(matches!(m.get_session_info(&id), Err(AppError::SessionNotFound(_))));
}

#[test]
fn activity_never_moves_back() {
    let mut m = SSHManager::new();
    let id = "s1".to_string();
    m.create_session(config("s1"), 100).unwrap();
    m.mark_connected(&id, 200).unwrap();
    m.create_shell(&id, 300).unwrap();
    m.write_to_shell(&id, 250).unwrap();
    assert_eq!(m.get_session(&id).unwrap().last_activity, 300);
    m.resize_shell(&id, 400).unwrap();
    assert_eq!(m.get_session(&id).unwrap().last_activity, 400);
}

#[test]
fn idle_sessions_are_swept() {
    let mut m = SSHManager::with_timeout(2_000);
    m.create_session(config("s1"), 0).unwrap();
    m.create_session(config("s2"), 1_500).unwrap();
    let gone = m.cleanup_expired_sessions(2_001);
    assert_eq!(gone, vec!["s1".to_string()]);
    let err = m.write_to_shell(&"s1".to_string(), 2_002).unwrap_err();
    assert_eq!(err.error_code(), "SESSION_NOT_FOUND");
    assert_eq!(m.get_active_session_count(), 1);
}

#[test]
fn duplicate_identity_replaces_session() {
    let mut m = SSHManager::new();
    m.create_session(config("s1"), 0).unwrap();
    m.mark_connected(&"s1".to_string(), 1).unwrap();
    m.create_session(config("s1"), 5).unwrap();
    assert_eq!(m.get_active_session_count(), 1);
    assert_eq!(m.get_session_info(&"s1".to_string()).unwrap(), (false, false, false));
}

#[test]
fn shell_reads_decode_per_chunk() {
    let mut m = SSHManager::new();
    let id = "s1".to_string();
    m.create_session(config("s1"), 0).unwrap();
    m.mark_connected(&id, 1).unwrap();
    assert_eq!(m.read_from_shell(&id, b"hello\n", 2).unwrap(), None);
    m.create_shell(&id, 3).unwrap();
    assert_eq!(m.read_from_shell(&id, b"", 4).unwrap(), None);
    assert_eq!(m.read_from_shell(&id, b"hello\n", 5).unwrap(), Some("hello\n".to_string()));
    assert_eq!(m.read_from_shell(&id, &[0x68, 0xff], 6).unwrap(), Some("h\u{fffd}".to_string()));
    assert_eq!(m.get_session(&id).unwrap().last_activity, 6);
}

#[test]
fn listing_entries_are_named_and_octal() {
    let e = RemoteEntry { path: "/home/u/notes.txt".to_string(), size: Some(12), is_directory: false, modified: Some(77), permissions: Some(0o100644) };
    let f = file_info(&e);
    assert_eq!(f.name, "notes.txt");
    assert_eq!(f.permissions.as_deref(), Some("100644"));
    assert_eq!(f.modified, Some(77));
    let e = RemoteEntry { path: "/".to_string(), size: None, is_directory: true, modified: None, permissions: None };
    let f = file_info(&e);
    assert_eq!(f.name, "unknown");
    assert_eq!(f.size, 0);
}

#[test]
fn connected_session_gets_suggestions() {
    let mut m = SSHManager::new();
    let id = "s1".to_string();
    m.create_session(config("s1"), 0).unwrap();
    m.mark_connected(&id, 1).unwrap();
    let s = m.get_autocomplete_suggestions(&id, "l", 1).unwrap();
    let texts: Vec<String> = s.iter().map(|x| x.text.clone()).collect();
    assert_eq!(texts, vec!["ls".to_string()]);
    let s = m.get_autocomplete_suggestions(&id, "ls ./", 5).unwrap();
    assert!(s.iter().all(|x| x.suggestion_type != SuggestionType::Command));
    let s = m.get_autocomplete_suggestions(&id, "ls -", 4).unwrap();
    assert_eq!(s.iter().filter(|x| x.suggestion_type == SuggestionType::Option).count(), 10);
}

#[test]
fn path_suggestions_for_empty_dot_and_absolute() {
    let texts = |v: Vec<termgate::autocomplete::AutocompleteSuggestion>| v.into_iter().map(|x| x.text).collect::<Vec<_>>();
    assert_eq!(texts(get_path_suggestions(".")), vec!["./", "../"]);
    assert_eq!(texts(get_path_suggestions("/u")), vec!["/usr/"]);
    assert_eq!(get_path_suggestions("").len(), 8);
    assert!(get_path_suggestions("~").is_empty());
}
