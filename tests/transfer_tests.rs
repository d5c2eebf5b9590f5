use termgate::errors::AppError;
use termgate::transfer::{TransferDirection, TransferManager, TransferStatus};

#[test]
fn test_transfer_manager_creation() {
    let manager = TransferManager::new();
    assert_eq!(manager.get_active_transfer_count(), 0);
    assert_eq!(manager.get_total_transfer_count(), 0);
}

#[test]
fn test_transfer_listing() {
    let manager = TransferManager::new();
    let transfers = manager.list_transfers();
    assert!(transfers.is_empty());
}

#[test]
fn test_cleanup_completed_transfers() {
    let mut manager = TransferManager::new();
    manager.cleanup_completed_transfers();
    assert_eq!(manager.get_total_transfer_count(), 0);
    assert_eq!(manager.get_active_transfer_count(), 0);
}

#[test]
fn transfer_test_graceful_shutdown() {
    let mut manager = TransferManager::new();
    let result = manager.graceful_shutdown();
    assert!(result.is_ok());
    assert_eq!(manager.get_active_transfer_count(), 0);
    assert_eq!(manager.get_total_transfer_count(), 0);
}

#[test]
fn test_cancel_nonexistent_transfer() {
    let mut manager = TransferManager::new();
    let result = manager.cancel_transfer(&"non-existent-id".to_string(), 0);
    assert!(result.is_ok());
}

#[test]
fn concurrency_cap_blocks_then_frees() {
    let mut manager = TransferManager::with_limit(1);
    let first = manager
        .start_upload("s1".to_string(), "/tmp/a".to_string(), "a".to_string(), b"abc", 10)
        .unwrap();
    manager.begin_transfer(&first);
    let second = manager.start_upload("s1".to_string(), "/tmp/b".to_string(), "b".to_string(), b"x", 11);
    assert!(matches!(second, Err(AppError::ResourceExhausted(_))));
    assert_eq!(second.unwrap_err().error_code(), "RESOURCE_EXHAUSTED");
    manager.finish_transfer(&first, Ok(3), 12);
    let t = manager.get_transfer(&first).unwrap();
    assert_eq!(t.status, TransferStatus::Completed);
    assert_eq!(t.transferred, 3);
    assert_eq!(t.end_time, Some(12));
    let third = manager.start_upload("s1".to_string(), "/tmp/c".to_string(), "c".to_string(), b"y", 13);
    assert!(third.is_ok());
}

#[test]
fn download_named_after_last_segment() {
    let mut manager = TransferManager::new();
    let id = manager.start_download("s1".to_string(), "/var/log/syslog".to_string(), None, 5).unwrap();
    let t = manager.get_transfer(&id).unwrap();
    assert_eq!(t.name, "syslog");
    assert_eq!(t.direction, TransferDirection::Download);
    assert_eq!(t.status, TransferStatus::Pending);
    assert_eq!(t.size, 0);
    manager.begin_transfer(&id);
    manager.finish_transfer(&id, Ok(2048), 9);
    let t = manager.get_transfer(&id).unwrap();
    assert_eq!(t.size, 2048);
    assert_eq!(t.transferred, 2048);
}

#[test]
fn status_only_moves_forward() {
    let mut manager = TransferManager::new();
    let id = manager.start_upload("s".to_string(), "/p".to_string(), "n".to_string(), b"12345", 1).unwrap();
    manager.cancel_transfer(&id, 2).unwrap();
    let t = manager.get_transfer(&id).unwrap();
    assert_eq!(t.status, TransferStatus::Cancelled);
    assert_eq!(t.end_time, Some(2));
    manager.begin_transfer(&id);
    manager.finish_transfer(&id, Ok(5), 3);
    let t = manager.get_transfer(&id).unwrap();
    assert_eq!(t.status, TransferStatus::Cancelled);
    assert_eq!(t.end_time, Some(2));
}

#[test]
fn failure_records_message() {
    let mut manager = TransferManager::new();
    let id = manager.start_upload("s".to_string(), "/p".to_string(), "n".to_string(), b"1", 1).unwrap();
    manager.begin_transfer(&id);
    manager.finish_transfer(&id, Err("disk full".to_string()), 4);
    let t = manager.get_transfer(&id).unwrap();
    assert_eq!(t.status, TransferStatus::Failed);
    assert_eq!(t.error.as_deref(), Some("disk full"));
    assert_eq!(manager.get_active_transfer_count(), 0);
}

#[test]
fn sweep_keeps_recent_finished_transfers() {
    let mut manager = TransferManager::new();
    let id = manager.start_upload("s".to_string(), "/p".to_string(), "n".to_string(), b"1", 0).unwrap();
    manager.cancel_transfer(&id, 1_000).unwrap();
    manager.periodic_cleanup(1_000 + 3_600_000);
    assert_eq!(manager.get_total_transfer_count(), 1);
    manager.periodic_cleanup(1_000 + 3_600_001);
    assert_eq!(manager.get_total_transfer_count(), 0);
}
