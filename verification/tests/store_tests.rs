use logpulse::app::{App, MAX_LOG_LINES};
use logpulse::entry::LogEntry;
use logpulse::level::LogLevel;
use logpulse::parser::{detect_parser, ParserKind, PlainParser};

fn fresh() -> App {
    App::new("test".to_string(), 0)
}

fn plain_entry(raw: &str) -> LogEntry {
    PlainParser.parse(raw)
}

#[test]
fn counters_monotone_and_bounded() {
    let mut app = fresh();
    let mut last_total = 0u64;
    let mut last_errors = 0u64;
    for i in 0..200 {
        let line = if i % 3 == 0 {
            format!("ERROR: boom {}", i)
        } else {
            format!("INFO: ok {}", i)
        };
        app.add_log(plain_entry(&line));
        assert!(app.total_count >= last_total);
        assert!(app.error_count >= last_errors);
        assert!(app.error_count <= app.total_count);
        assert!(app.logs.len() <= MAX_LOG_LINES);
        last_total = app.total_count;
        last_errors = app.error_count;
    }
    assert_eq!(app.total_count, 200);
    assert_eq!(app.error_count, 67);
}

#[test]
fn continuation_grouping() {
    // One structured Laravel error, then three unmarked stack-trace frames.
    let kind = ParserKind::Laravel;
    let mut app = fresh();
    app.add_log(kind.parse("[2024-01-15 10:30:01] production.ERROR: exception thrown"));
    app.add_log(kind.parse("#0 /app/Http/Controller.php(42): handle()"));
    app.add_log(kind.parse("#1 /app/Kernel.php(17): dispatch()"));
    app.add_log(kind.parse("#2 {main}"));
    assert_eq!(app.logs.len(), 1);
    assert_eq!(app.logs[0].extra_lines.len(), 3);
    assert_eq!(app.total_count, 1);
    assert_eq!(app.logs[0].extra_lines[2], "#2 {main}");
    assert_eq!(app.logs[0].level, LogLevel::Error);
}

#[test]
fn grouping_never_in_plain_stream() {
    // A stream that has produced no structured entry keeps lines independent.
    let mut app = fresh();
    app.add_log(plain_entry("first plain line"));
    app.add_log(plain_entry("second plain line"));
    app.add_log(plain_entry("third plain line"));
    assert_eq!(app.logs.len(), 3);
    assert_eq!(app.total_count, 3);
    assert!(app.logs[2].extra_lines.is_empty());
}

#[test]
fn overflow_eviction() {
    let mut app = fresh();
    for i in 0..10500u32 {
        // no level marker, so every line stays an independent entry
        app.add_log(plain_entry(&format!("line-{}", i)));
    }
    assert_eq!(app.logs.len(), 10000);
    assert_eq!(app.total_count, 10500);
    // the first 500 inserted entries were evicted from the head
    assert_eq!(app.logs[0].raw, "line-500");
    assert_eq!(app.logs[9999].raw, "line-10499");
    // a cursor at 0 before the overflow is still 0
    assert_eq!(app.selected_index, 0);
}

#[test]
fn clear_resets_ring_but_not_counters() {
    let mut app = fresh();
    for i in 0..10 {
        app.add_log(plain_entry(&format!("ERROR {}", i)));
    }
    app.clear_logs();
    assert_eq!(app.logs.len(), 0);
    assert_eq!(app.selected_index, 0);
    assert_eq!(app.scroll_offset, 0);
    assert_eq!(app.total_count, 10);
    assert_eq!(app.error_count, 10);
}

#[test]
fn prepend_advances_cursor() {
    let mut app = fresh();
    for i in 0..5 {
        app.add_log(plain_entry(&format!("live {}", i)));
    }
    app.selected_index = 2;
    let older: Vec<LogEntry> = (0..3).map(|i| plain_entry(&format!("old {}", i))).collect();
    app.prepend_logs(older);
    assert_eq!(app.logs.len(), 8);
    assert_eq!(app.logs[0].raw, "old 0");
    assert_eq!(app.logs[2].raw, "old 2");
    assert_eq!(app.logs[3].raw, "live 0");
    // the cursor advanced by the batch size, staying on the same line
    assert_eq!(app.selected_index, 5);
    assert_eq!(app.total_count, 5);
}

#[test]
fn autodetect_laravel_twenty_lines() {
    let mut lines: Vec<String> = Vec::new();
    for i in 0..20 {
        lines.push(format!("[2024-01-15 10:30:{:02}] production.ERROR: X", i + 1));
    }
    let kind = detect_parser(&lines);
    assert_eq!(kind.name(), "Laravel");
    let mut app = fresh();
    for line in &lines {
        app.add_log(kind.parse(line));
    }
    let first = &app.logs[0];
    assert_eq!(first.level, LogLevel::Error);
    assert_eq!(first.timestamp.as_deref(), Some("2024-01-15 10:30:01"));
    assert_eq!(first.message.as_deref(), Some("X"));
}

#[test]
fn round_trip_raw_preserved() {
    let inputs = [
        "[2024-01-15 10:30:01] production.ERROR: Connection refused",
        "[15/Jan/2024 10:30:11] ERROR [django.request] failure",
        "time=2024-01-15T10:30:09Z level=ERROR msg=\"panic\"",
        "2024/01/15 10:30:01 Starting server",
        r#"10.0.0.1 - - [15/Jan/2024:10:30:07 +0000] "GET / HTTP/1.1" 200 512"#,
        r#"{"level":"info","msg":"start"}"#,
        "anything else at all",
    ];
    for kind in [
        ParserKind::Json,
        ParserKind::Laravel,
        ParserKind::Django,
        ParserKind::Go,
        ParserKind::Nginx,
        ParserKind::Plain,
    ] {
        for input in &inputs {
            let entry = kind.parse(input);
            assert_eq!(entry.raw, *input);
        }
    }
}

#[test]
fn fallback_reparse_keeps_raw() {
    // Re-parsing fallback output with a parser that rejects it keeps raw.
    let line = "plain text that no structured parser accepts";
    let fallback = PlainParser.parse(line);
    for kind in [
        ParserKind::Json,
        ParserKind::Laravel,
        ParserKind::Django,
        ParserKind::Go,
        ParserKind::Nginx,
    ] {
        assert!(!kind.can_parse(&fallback.raw));
        let again = kind.parse(&fallback.raw);
        assert_eq!(again.raw, fallback.raw);
    }
}

#[test]
fn eps_tick_rotates_window() {
    let mut app = fresh();
    for _ in 0..7 {
        app.add_log(plain_entry("INFO x"));
    }
    // under a second: nothing moves
    app.tick_eps(999);
    assert_eq!(app.current_eps, 0);
    assert_eq!(app.eps_history.len(), 60);
    // a full second: the in-progress counter is published and rotated in
    app.tick_eps(1000);
    assert_eq!(app.current_eps, 7);
    assert_eq!(app.eps_history.len(), 60);
    assert_eq!(*app.eps_history.back().unwrap(), 7);
    assert_eq!(*app.eps_history.front().unwrap(), 0);
    // the counter restarted
    app.tick_eps(2000);
    assert_eq!(app.current_eps, 0);
}

#[test]
fn status_expires_after_ttl() {
    let mut app = fresh();
    app.set_status("Copied to clipboard".to_string(), 1000);
    app.clear_expired_status(3999);
    assert!(app.status_message.is_some());
    app.clear_expired_status(4001);
    assert!(app.status_message.is_none());
}

#[test]
fn detect_tie_prefers_probe_order() {
    // one Laravel hit and one Django hit: a 1-1 tie above zero resolves to
    // the earlier parser in probe order
    let lines: Vec<String> = vec![
        "[2024-01-15 10:30:01] production.ERROR: x".to_string(),
        "[15/Jan/2024 10:30:11] ERROR [app] y".to_string(),
    ];
    assert_eq!(detect_parser(&lines).name(), "Laravel");
}

#[test]
fn eviction_adjusts_scroll_anchor() {
    let mut app = fresh();
    for i in 0..MAX_LOG_LINES {
        app.add_log(plain_entry(&format!("line-{}", i)));
    }
    app.scroll_offset = 5;
    app.add_log(plain_entry("one more"));
    // the head was evicted, so an anchor into the ring moves up by one
    assert_eq!(app.scroll_offset, 4);
    assert_eq!(app.logs.len(), MAX_LOG_LINES);
}
