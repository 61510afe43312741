use lsp_daemon::watchdog::{memory_mb_from_stat, WatchdogState};

#[test]
fn test_watchdog_creation() {
    let watchdog = WatchdogState::new(30);
    assert!(!watchdog.running);
    assert_eq!(watchdog.timeout_secs, 30);
    assert_eq!(watchdog.last_heartbeat, 0);
    assert_eq!(watchdog.get_heartbeat_age(1_000), 0);
    assert!(watchdog.is_healthy(1_000));
}

#[test]
fn test_watchdog_heartbeat() {
    let mut watchdog = WatchdogState::new(30);
    watchdog.heartbeat(1_000);
    assert_eq!(watchdog.last_heartbeat, 1_000);
    assert_eq!(watchdog.get_heartbeat_age(1_000), 0);
    assert_eq!(watchdog.get_heartbeat_age(1_010), 10);
    assert!(watchdog.is_healthy(1_030));
    assert!(!watchdog.needs_recovery(1_030));
    assert!(!watchdog.is_healthy(1_031));
    assert!(watchdog.needs_recovery(1_031));
}

#[test]
fn test_watchdog_start_stop() {
    let mut watchdog = WatchdogState::new(1);
    watchdog.start();
    assert!(watchdog.running);
    watchdog.stop();
    assert!(!watchdog.running);
}

#[test]
fn test_memory_from_stat_line() {
    let mut fields: Vec<String> = (0..30).map(|i| i.to_string()).collect();
    fields[23] = "512".to_string(); // 512 pages of 4096 bytes = 2 MB
    let line = fields.join(" ");
    assert_eq!(memory_mb_from_stat(&line), Some(2));

    fields[23] = "garbage".to_string();
    assert_eq!(memory_mb_from_stat(&fields.join(" ")), Some(0));

    let short: Vec<String> = (0..23).map(|i| i.to_string()).collect();
    assert_eq!(memory_mb_from_stat(&short.join(" ")), None);
}
