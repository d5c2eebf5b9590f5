use termgate::fingerprint::key_fingerprint;
use termgate::security::{SecurityConfig, SecurityEventType, SecurityManager, SshKeyFingerprint};

fn manager_with(ceiling: u32, max_attempts: u32) -> SecurityManager {
    let mut config = SecurityConfig::default();
    config.rate_limit_requests_per_minute = ceiling;
    config.max_login_attempts = max_attempts;
    SecurityManager::new(config)
}

#[test]
fn rate_limit_blocks_and_recovers() {
    let mut gate = manager_with(3, 5);
    let ip = "10.0.0.1".to_string();
    let t0: i64 = 1_700_000_000_000;
    assert_eq!(gate.check_rate_limit(&ip, t0).unwrap(), true);
    assert_eq!(gate.check_rate_limit(&ip, t0 + 1).unwrap(), true);
    assert_eq!(gate.check_rate_limit(&ip, t0 + 2).unwrap(), true);
    assert_eq!(gate.check_rate_limit(&ip, t0 + 3).unwrap(), false);
    assert_eq!(gate.check_rate_limit(&ip, t0 + 3 + 299_999).unwrap(), false);
    assert_eq!(gate.check_rate_limit(&ip, t0 + 3 + 300_000).unwrap(), true);
}

#[test]
fn rate_limit_is_per_address() {
    let mut gate = manager_with(1, 5);
    let a = "10.0.0.1".to_string();
    let b = "10.0.0.2".to_string();
    assert!(gate.check_rate_limit(&a, 1000).unwrap());
    assert!(!gate.check_rate_limit(&a, 1001).unwrap());
    assert!(gate.check_rate_limit(&b, 1002).unwrap());
}

#[test]
fn lockout_after_threshold_then_unlocks() {
    let mut gate = manager_with(60, 3);
    let user = "u".to_string();
    let ip = "10.0.0.9".to_string();
    let t0: i64 = 1_000_000;
    for k in 0..3 {
        gate.record_login_attempt(&user, &ip, false, None, t0 + k).unwrap();
    }
    assert_eq!(gate.check_account_lockout(&user, t0 + 10).unwrap(), false);
    assert_eq!(gate.check_account_lockout(&user, t0 + 2 + 15 * 60_000 - 1).unwrap(), false);
    assert_eq!(gate.check_account_lockout(&user, t0 + 2 + 15 * 60_000).unwrap(), true);
}

#[test]
fn success_resets_failures() {
    let mut gate = manager_with(60, 3);
    let user = "u".to_string();
    let ip = "1.1.1.1".to_string();
    gate.record_login_attempt(&user, &ip, false, None, 1).unwrap();
    gate.record_login_attempt(&user, &ip, false, None, 2).unwrap();
    gate.record_login_attempt(&user, &ip, true, Some("s1".to_string()), 3).unwrap();
    gate.record_login_attempt(&user, &ip, false, None, 4).unwrap();
    assert!(gate.check_account_lockout(&user, 5).unwrap());
}

#[test]
fn connection_counter_rejects_above_limit() {
    let mut gate = SecurityManager::new(SecurityConfig::default());
    let ip = "192.168.1.1".to_string();
    for _ in 0..10 {
        assert!(gate.track_connection(&ip, 0).unwrap());
    }
    assert!(!gate.track_connection(&ip, 0).unwrap());
    gate.release_connection(&ip);
    gate.release_connection(&ip);
    assert!(gate.track_connection(&ip, 0).unwrap());
}

#[test]
fn fingerprint_allowlist() {
    let mut gate = SecurityManager::new(SecurityConfig::default());
    let user = "alice".to_string();
    let fp = SshKeyFingerprint {
        algorithm: "SHA256".to_string(),
        fingerprint: key_fingerprint(b"key"),
        key_type: "ssh-ed25519".to_string(),
    };
    assert!(!gate.verify_key_fingerprint(&user, &fp, 0).unwrap());
    gate.add_trusted_fingerprint(&user, fp.clone());
    assert!(gate.verify_key_fingerprint(&user, &fp, 0).unwrap());
    let other = SshKeyFingerprint { fingerprint: key_fingerprint(b"other"), ..fp.clone() };
    assert!(!gate.verify_key_fingerprint(&user, &other, 0).unwrap());
}

#[test]
fn fingerprint_is_sha256_base64() {
    assert_eq!(key_fingerprint(b""), "SHA256:47DEQpj8HBSa+/TImW+5JCeuQeRkm5NMpJWZG3hSuFU=");
    assert_eq!(key_fingerprint(b"abc"), key_fingerprint(b"abc"));
    let gate = SecurityManager::new(SecurityConfig::default());
    assert_eq!(gate.calculate_key_fingerprint(b"abc", "ssh-rsa"), "SHA256:ungWv48Bz+pBQUDeXa4iI7ADYaOWF3qctBD/YfIAFa0=");
}

#[test]
fn stats_and_cleanup() {
    let mut gate = manager_with(1, 2);
    let ip = "10.0.0.1".to_string();
    let user = "bob".to_string();
    gate.check_rate_limit(&ip, 1_000_000).unwrap();
    gate.check_rate_limit(&ip, 1_000_001).unwrap();
    gate.record_login_attempt(&user, &ip, false, None, 1_000_002).unwrap();
    gate.record_login_attempt(&user, &ip, false, None, 1_000_003).unwrap();
    let stats = gate.get_security_stats(1_000_004);
    assert_eq!(stats.active_rate_limits, 1);
    assert_eq!(stats.locked_accounts, 1);
    assert_eq!(stats.total_events, 3);
    assert_eq!(stats.events_last_hour, 3);
    gate.cleanup_expired_data(1_000_003 + 15 * 60_000 + 300_000);
    let stats = gate.get_security_stats(1_000_003 + 15 * 60_000 + 300_000);
    assert_eq!(stats.active_rate_limits, 0);
    assert_eq!(stats.locked_accounts, 0);
}

#[test]
fn decisions_are_journaled() {
    let mut gate = manager_with(1, 2);
    let ip = "10.0.0.7".to_string();
    let user = "carol".to_string();
    assert!(gate.check_rate_limit(&ip, 10).unwrap());
    assert!(gate.security_events.is_empty());
    assert!(!gate.check_rate_limit(&ip, 11).unwrap());
    assert_eq!(gate.security_events.len(), 1);
    assert_eq!(gate.security_events[0].event_type, SecurityEventType::RateLimitExceeded);
    assert_eq!(gate.security_events[0].timestamp, 11);
    assert_eq!(gate.security_events[0].source_ip.as_deref(), Some("10.0.0.7"));
    gate.record_login_attempt(&user, &ip, false, None, 12).unwrap();
    assert_eq!(gate.security_events[1].event_type, SecurityEventType::LoginFailure);
    gate.record_login_attempt(&user, &ip, false, None, 13).unwrap();
    assert_eq!(gate.security_events[2].event_type, SecurityEventType::AccountLockout);
    assert_eq!(gate.security_events[2].user_id.as_deref(), Some("carol"));
    gate.record_login_attempt(&user, &ip, true, None, 14).unwrap();
    assert_eq!(gate.security_events[3].event_type, SecurityEventType::LoginSuccess);
    let mut config = SecurityConfig::default();
    config.max_concurrent_connections_per_ip = 0;
    let mut gate = SecurityManager::new(config);
    assert!(!gate.track_connection(&ip, 20).unwrap());
    assert_eq!(gate.security_events[0].event_type, SecurityEventType::DdosDetected);
}
