use tank_sensor::logging::{
    send_logs_to_server, setup_logger, Error, HttpLogger, Level, LogEntry, RetryState,
    LOG_CHUNK_SIZE, MAX_DEVICE_NAME_LENGTH, MAX_LOG_LENGTH, MAX_STORED_LOGS,
};

fn fill(logger: &mut HttpLogger, from: u64, count: u64) {
    for i in from..from + count {
        let stored = logger.store_log("tank", Level::Info, &format!("m{}", i), i);
        assert_eq!(stored, Ok(()));
    }
}

fn drain(logger: &mut HttpLogger) -> Vec<(String, u64, u32)> {
    let mut flush = send_logs_to_server(logger);
    let mut seen: Vec<(String, u64, u32)> = Vec::new();
    loop {
        let chunk: Vec<(String, u64, u32)> = match flush.transmit_logs() {
            Some(entries) => entries
                .iter()
                .map(|e: &LogEntry| (e.message.as_str().to_string(), e.timestamp, e.boot_count))
                .collect(),
            None => break,
        };
        assert!(chunk.len() <= LOG_CHUNK_SIZE);
        seen.extend(chunk);
        flush.chunk_done(true);
    }
    let mut retry = RetryState::new(1, 8).unwrap();
    assert_eq!(flush.finish(logger, &mut retry, 0), Ok(()));
    seen
}

#[test]
fn level_names_are_upper_case() {
    assert_eq!(Level::Error.as_str(), "ERROR");
    assert_eq!(Level::Warn.as_str(), "WARN");
    assert_eq!(Level::Info.as_str(), "INFO");
    assert_eq!(Level::Debug.as_str(), "DEBUG");
    assert_eq!(Level::Trace.as_str(), "TRACE");
}

#[test]
fn level_colours_on_the_console() {
    assert_eq!(Level::Error.console_colour(), "\u{1b}[31m");
    assert_eq!(Level::Warn.console_colour(), "\u{1b}[33m");
    assert_eq!(Level::Info.console_colour(), "\u{1b}[32m");
    assert_eq!(Level::Debug.console_colour(), "\u{1b}[34m");
    assert_eq!(Level::Trace.console_colour(), "\u{1b}[35m");
}

#[test]
fn level_filter_lets_more_severe_levels_pass() {
    assert!(Level::Error.passes(Level::Info));
    assert!(Level::Info.passes(Level::Info));
    assert!(!Level::Debug.passes(Level::Info));
    assert!(Level::Trace.passes(Level::Trace));
    assert!(!Level::Warn.passes(Level::Error));
}

#[test]
fn new_logger_is_empty_and_records_info() {
    let logger = HttpLogger::new();
    assert_eq!(logger.pending(), 0);
    assert!(logger.enabled(Level::Info));
    assert!(!logger.enabled(Level::Debug));
}

#[test]
fn setup_logger_fails_when_not_installed() {
    assert!(matches!(setup_logger(3, false), Err(Error::SetLogger)));
}

#[test]
fn setup_logger_stamps_entries_with_boot_count() {
    let mut logger = setup_logger(17, true).ok().unwrap();
    assert!(logger.log("tank", Level::Warn, "low", 99));
    let seen = drain(&mut logger);
    assert_eq!(seen, vec![("low".to_string(), 99, 17)]);
}

#[test]
fn log_drops_entries_below_the_filter() {
    let mut logger = HttpLogger::new();
    assert!(!logger.log("tank", Level::Debug, "noise", 1));
    assert_eq!(logger.pending(), 0);
    logger.set_max_level(Level::Trace);
    assert!(logger.log("tank", Level::Debug, "noise", 2));
    assert_eq!(logger.pending(), 1);
}

#[test]
fn set_boot_count_applies_to_later_entries() {
    let mut logger = HttpLogger::new();
    fill(&mut logger, 0, 1);
    logger.set_boot_count(4);
    fill(&mut logger, 1, 1);
    let seen = drain(&mut logger);
    assert_eq!(seen, vec![("m0".to_string(), 0, 0), ("m1".to_string(), 1, 4)]);
}

#[test]
fn ring_keeps_entries_in_order() {
    let mut logger = HttpLogger::new();
    fill(&mut logger, 0, 3);
    assert_eq!(logger.pending(), 3);
    let seen = drain(&mut logger);
    let stamps: Vec<u64> = seen.iter().map(|e| e.1).collect();
    assert_eq!(stamps, vec![0, 1, 2]);
    assert_eq!(logger.pending(), 0);
}

#[test]
fn ring_fed_beyond_capacity_keeps_the_last_entries() {
    let mut logger = HttpLogger::new();
    let extra: u64 = 7;
    fill(&mut logger, 0, MAX_STORED_LOGS as u64 + extra);
    assert_eq!(logger.pending(), MAX_STORED_LOGS);
    let seen = drain(&mut logger);
    let stamps: Vec<u64> = seen.iter().map(|e| e.1).collect();
    let expected: Vec<u64> = (extra..MAX_STORED_LOGS as u64 + extra).collect();
    assert_eq!(stamps, expected);
}

#[test]
fn flush_sends_chunks_of_ten() {
    let mut logger = HttpLogger::new();
    fill(&mut logger, 0, 25);
    let mut flush = send_logs_to_server(&mut logger);
    assert_eq!(logger.pending(), 0);
    assert_eq!(flush.remaining(), 25);
    let mut sizes: Vec<usize> = Vec::new();
    loop {
        let size = match flush.transmit_logs() {
            Some(chunk) => chunk.len(),
            None => break,
        };
        sizes.push(size);
        flush.chunk_done(true);
    }
    assert_eq!(sizes, vec![10, 10, 5]);
    assert_eq!(flush.remaining(), 0);
}

#[test]
fn flush_hands_the_same_chunk_out_until_it_is_done() {
    let mut logger = HttpLogger::new();
    fill(&mut logger, 0, 12);
    let mut flush = send_logs_to_server(&mut logger);
    let first: Vec<u64> = flush.transmit_logs().unwrap().iter().map(|e| e.timestamp).collect();
    let again: Vec<u64> = flush.transmit_logs().unwrap().iter().map(|e| e.timestamp).collect();
    assert_eq!(first, again);
    flush.chunk_done(true);
    let second: Vec<u64> = flush.transmit_logs().unwrap().iter().map(|e| e.timestamp).collect();
    assert_eq!(second, vec![10, 11]);
}

#[test]
fn failed_flush_puts_unsent_entries_back() {
    let mut logger = HttpLogger::new();
    fill(&mut logger, 0, 25);
    let mut flush = send_logs_to_server(&mut logger);
    assert!(flush.transmit_logs().is_some());
    flush.chunk_done(true);
    assert!(flush.transmit_logs().is_some());
    flush.chunk_done(false);
    assert!(flush.transmit_logs().is_none());
    assert_eq!(flush.remaining(), 15);
    // Logged while the flush was under way.
    fill(&mut logger, 100, 2);
    let mut retry = RetryState::new(5, 600).unwrap();
    assert_eq!(flush.finish(&mut logger, &mut retry, 1_000), Err(Error::SendLogs));
    assert_eq!(retry.current_interval(), 10);
    assert_eq!(logger.pending(), 17);
    let stamps: Vec<u64> = drain(&mut logger).iter().map(|e| e.1).collect();
    let mut expected: Vec<u64> = (10..25).collect();
    expected.extend(vec![100, 101]);
    assert_eq!(stamps, expected);
}

#[test]
fn failed_flush_evicts_the_oldest_unsent_entries_when_the_ring_is_full() {
    let mut logger = HttpLogger::new();
    fill(&mut logger, 0, 100);
    let mut flush = send_logs_to_server(&mut logger);
    flush.chunk_done(false);
    fill(&mut logger, 1_000, 95);
    let mut retry = RetryState::new(5, 600).unwrap();
    assert_eq!(flush.finish(&mut logger, &mut retry, 0), Err(Error::SendLogs));
    assert_eq!(logger.pending(), 100);
    let stamps: Vec<u64> = drain(&mut logger).iter().map(|e| e.1).collect();
    let mut expected: Vec<u64> = (95..100).collect();
    expected.extend(1_000..1_095);
    assert_eq!(stamps, expected);
}

#[test]
fn abandoned_flush_counts_as_failed() {
    let mut logger = HttpLogger::new();
    fill(&mut logger, 0, 3);
    let flush = send_logs_to_server(&mut logger);
    let mut retry = RetryState::new(5, 600).unwrap();
    assert_eq!(flush.finish(&mut logger, &mut retry, 0), Err(Error::SendLogs));
    assert_eq!(logger.pending(), 3);
}

#[test]
fn flush_of_an_empty_ring_succeeds() {
    let mut logger = HttpLogger::new();
    let flush = send_logs_to_server(&mut logger);
    assert!(flush.transmit_logs().is_none());
    let mut retry = RetryState::new(5, 600).unwrap();
    retry.record_failure(1);
    assert_eq!(flush.finish(&mut logger, &mut retry, 2), Ok(()));
    assert_eq!(retry.current_interval(), 5);
}

#[test]
fn retry_interval_doubles_up_to_the_ceiling() {
    // Base 5 s, ceiling 600 s: min(5 * 2^f, 600).
    let mut retry = RetryState::new(5, 600).unwrap();
    let mut seen: Vec<u64> = vec![retry.current_interval()];
    for f in 0..9 {
        retry.record_failure(f);
        seen.push(retry.current_interval());
    }
    assert_eq!(seen, vec![5, 10, 20, 40, 80, 160, 320, 600, 600, 600]);
}

#[test]
fn retry_interval_resets_on_success() {
    let mut retry = RetryState::new(5, 600).unwrap();
    retry.record_failure(1);
    retry.record_failure(2);
    retry.record_failure(3);
    assert_eq!(retry.current_interval(), 40);
    retry.record_success(4);
    assert_eq!(retry.current_interval(), 5);
}

#[test]
fn retry_is_due_after_the_interval() {
    let mut retry = RetryState::new(5, 600).unwrap();
    assert!(retry.is_due(0));
    retry.record_failure(100);
    assert!(!retry.is_due(109));
    assert!(retry.is_due(110));
    assert!(!retry.is_due(50));
}

#[test]
fn retry_state_needs_base_within_ceiling() {
    assert!(RetryState::new(601, 600).is_none());
    assert!(RetryState::new(600, 600).is_some());
    let mut flat = RetryState::new(0, 0).unwrap();
    flat.record_failure(1);
    assert_eq!(flat.current_interval(), 0);
}

#[test]
fn retry_interval_near_the_end_of_the_range() {
    let mut retry = RetryState::new(u64::MAX - 1, u64::MAX).unwrap();
    retry.record_failure(0);
    assert_eq!(retry.current_interval(), u64::MAX);
}

fn stored_texts(device_id: &str, message: &str) -> (String, String, Level) {
    let mut logger = HttpLogger::new();
    assert_eq!(logger.store_log(device_id, Level::Error, message, 1), Ok(()));
    let flush = send_logs_to_server(&mut logger);
    let entry = &flush.transmit_logs().unwrap()[0];
    (entry.device_id.as_str().to_string(), entry.message.as_str().to_string(), entry.level)
}

#[test]
fn entry_takes_texts_that_fit() {
    let name = "n".repeat(MAX_DEVICE_NAME_LENGTH);
    let message = "m".repeat(MAX_LOG_LENGTH);
    assert_eq!(stored_texts(&name, &message), (name.clone(), message.clone(), Level::Error));
    assert_eq!(stored_texts("", ""), (String::new(), String::new(), Level::Error));
}

#[test]
fn entry_leaves_out_a_device_name_that_is_too_long() {
    let name = "n".repeat(MAX_DEVICE_NAME_LENGTH + 1);
    assert_eq!(stored_texts(&name, "text"), (String::new(), "text".to_string(), Level::Error));
}

#[test]
fn entry_leaves_out_a_message_that_is_too_long() {
    let message = "m".repeat(MAX_LOG_LENGTH + 1);
    assert_eq!(stored_texts("tank", &message), ("tank".to_string(), String::new(), Level::Error));
}

#[test]
fn entry_bounds_count_bytes_not_characters() {
    // 128 characters of two bytes each fit, one byte more does not.
    let fits = "é".repeat(MAX_LOG_LENGTH / 2);
    assert_eq!(stored_texts("tank", &fits).1, fits);
    let too_long = format!("{}x", fits);
    assert_eq!(stored_texts("tank", &too_long).1, "");
    let name = "é".repeat(MAX_DEVICE_NAME_LENGTH / 2 + 1);
    assert_eq!(stored_texts(&name, "text").0, "");
}
