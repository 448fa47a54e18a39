use std::collections::VecDeque;

use logpulse::app::{App, InputMode, ViewMode};
use logpulse::detail::{build_detail_text, detail_content};
use logpulse::entry::LogEntry;
use logpulse::input::{handle_key, KeyEffect, KeyInput};
use logpulse::level::LogLevel;
use logpulse::parser::{ParserKind, PlainParser};
use logpulse::remote::{classify_ssh_args, ssh_base_args, SshAction, SshOpts};
use logpulse::text::skip_chars;
use logpulse::view::{row_spans, viewport_window, SpanStyle};

fn fresh() -> App {
    App::new("test".to_string(), 0)
}

fn entry_with_ts(ts: &str, n: u32) -> LogEntry {
    LogEntry {
        raw: format!("INFO event {}", n),
        level: LogLevel::Info,
        timestamp: Some(ts.to_string()),
        message: None,
        metadata: None,
        extra_lines: Vec::new(),
    }
}

#[test]
fn selection_stays_in_bounds() {
    let mut app = fresh();
    for i in 0..5 {
        app.add_log(PlainParser.parse(&format!("INFO {}", i)));
    }
    app.scroll_down();
    app.scroll_down();
    assert_eq!(app.selected_index, 2);
    app.page_down(50);
    assert_eq!(app.selected_index, 4);
    app.scroll_down();
    assert_eq!(app.selected_index, 4);
    app.page_up(50);
    assert_eq!(app.selected_index, 0);
    app.scroll_up();
    assert_eq!(app.selected_index, 0);
    app.jump_to_end();
    assert_eq!(app.selected_index, 4);
    app.jump_to_start();
    assert_eq!(app.selected_index, 0);
}

#[test]
fn filter_selects_matching_entries() {
    let mut app = fresh();
    app.add_log(PlainParser.parse("ERROR: database down"));
    app.add_log(PlainParser.parse("INFO: all fine"));
    app.add_log(PlainParser.parse("ERROR: retry failed"));
    app.add_log(PlainParser.parse("DEBUG: tracing"));
    app.filter_text = "error".to_string();
    app.update_filter_regex();
    let visible = app.visible_logs();
    assert_eq!(visible, vec![0, 2]);
    assert_eq!(app.visible_count(), 2);
    // error-only flag composes with the pattern
    app.filter_text = String::new();
    app.update_filter_regex();
    app.error_only = true;
    assert_eq!(app.visible_logs(), vec![0, 2]);
}

#[test]
fn filter_matches_continuation_lines() {
    let kind = ParserKind::Laravel;
    let mut app = fresh();
    app.add_log(kind.parse("[2024-01-15 10:30:01] production.ERROR: top"));
    app.add_log(kind.parse("caused by: TimeoutException"));
    app.add_log(kind.parse("[2024-01-15 10:30:02] production.INFO: other"));
    app.filter_text = "timeout".to_string();
    app.update_filter_regex();
    // the pattern hits only inside the first entry's continuation line
    assert_eq!(app.visible_logs(), vec![0]);
}

#[test]
fn invalid_regex_falls_back_to_literal() {
    let mut app = fresh();
    app.add_log(PlainParser.parse("value[0] exploded"));
    app.add_log(PlainParser.parse("value exploded"));
    app.filter_text = "value[".to_string();
    app.update_filter_regex();
    // "value[" is not a valid regex; the escaped literal matches only the
    // first line
    assert_eq!(app.visible_logs(), vec![0]);
}

#[test]
fn search_wraps_around() {
    let mut app = fresh();
    for i in 0..6 {
        let line = if i % 2 == 0 {
            format!("INFO tick {}", i)
        } else {
            format!("INFO tock {}", i)
        };
        app.add_log(PlainParser.parse(&line));
    }
    app.search_text = "tock".to_string();
    app.update_search_regex();
    app.search_next();
    assert_eq!(app.selected_index, 1);
    app.search_next();
    assert_eq!(app.selected_index, 3);
    app.search_next();
    assert_eq!(app.selected_index, 5);
    app.search_next();
    assert_eq!(app.selected_index, 1);
    app.search_prev();
    assert_eq!(app.selected_index, 5);
}

#[test]
fn time_jump_freezes_view() {
    let mut app = fresh();
    for (i, ts) in ["10:00", "10:05", "10:10", "10:15", "10:20"].iter().enumerate() {
        app.add_log(entry_with_ts(ts, i as u32));
    }
    assert_eq!(app.visible_count(), 5);
    app.jump_to_time("10:10");
    assert_eq!(app.selected_index, 2);
    assert!(app.frozen);
    // subsequent ingestion does not move the cursor
    app.add_log(entry_with_ts("10:25", 5));
    app.add_log(entry_with_ts("10:30", 6));
    assert_eq!(app.selected_index, 2);
}

#[test]
fn frozen_keeps_pending_lines() {
    let mut app = fresh();
    app.add_log(PlainParser.parse("INFO before"));
    let before = app.logs.len();
    app.frozen = true;
    // the channel keeps every line while frozen
    let mut channel: VecDeque<String> = (0..1000).map(|i| format!("INFO {}", i)).collect();
    for _ in 0..10 {
        // one scheduler iteration: drain only when not frozen
        if !app.frozen {
            let mut drained = 0;
            while let Some(line) = channel.pop_front() {
                app.add_log(PlainParser.parse(&line));
                drained += 1;
                if drained >= 5000 {
                    break;
                }
            }
        }
    }
    assert_eq!(app.logs.len(), before);
    assert_eq!(channel.len(), 1000);
    // unfreeze: one iteration drains them all (under the 5000 cap)
    app.frozen = false;
    if !app.frozen {
        let mut drained = 0;
        while let Some(line) = channel.pop_front() {
            app.add_log(PlainParser.parse(&line));
            drained += 1;
            if drained >= 5000 {
                break;
            }
        }
    }
    assert_eq!(app.logs.len(), before + 1000);
    assert!(channel.is_empty());
}

#[test]
fn keymap_modal_transitions() {
    let mut app = fresh();
    app.add_log(PlainParser.parse("INFO x"));
    // space toggles frozen
    handle_key(&mut app, KeyInput::Char(' '), 0);
    assert!(app.frozen);
    handle_key(&mut app, KeyInput::Char(' '), 0);
    assert!(!app.frozen);
    // '/' enters filter mode and typing edits the filter text live
    handle_key(&mut app, KeyInput::Char('/'), 0);
    assert_eq!(app.input_mode, InputMode::Filter);
    handle_key(&mut app, KeyInput::Char('z'), 0);
    handle_key(&mut app, KeyInput::Char('q'), 0);
    assert_eq!(app.filter_text, "zq");
    assert_eq!(app.visible_count(), 0);
    handle_key(&mut app, KeyInput::Backspace, 0);
    assert_eq!(app.filter_text, "z");
    // esc leaves filter mode and clears the text
    handle_key(&mut app, KeyInput::Esc, 0);
    assert_eq!(app.input_mode, InputMode::Normal);
    assert_eq!(app.filter_text, "");
    assert_eq!(app.visible_count(), 1);
    // enter opens the detail view, esc closes it
    handle_key(&mut app, KeyInput::Enter, 0);
    assert_eq!(app.view_mode, ViewMode::Detail);
    handle_key(&mut app, KeyInput::Esc, 0);
    assert_eq!(app.view_mode, ViewMode::Feed);
    // 'q' quits from normal mode
    let effect = handle_key(&mut app, KeyInput::Char('q'), 0);
    assert!(matches!(effect, KeyEffect::Quit));
    assert!(app.should_quit);
}

#[test]
fn keymap_copy_and_export_effects() {
    let kind = ParserKind::Laravel;
    let mut app = fresh();
    app.add_log(kind.parse("[2024-01-15 10:30:01] production.ERROR: first"));
    app.add_log(kind.parse("  at line two"));
    let effect = handle_key(&mut app, KeyInput::Char('y'), 0);
    match effect {
        KeyEffect::Copy(text) => {
            assert_eq!(
                text,
                "[2024-01-15 10:30:01] production.ERROR: first\n  at line two"
            );
        }
        other => panic!("expected a copy effect, got {:?}", other),
    }
    // save prompt returns an export effect carrying the typed filename
    handle_key(&mut app, KeyInput::Char('s'), 0);
    assert_eq!(app.input_mode, InputMode::SavePrompt);
    for c in "out.log".chars() {
        handle_key(&mut app, KeyInput::Char(c), 0);
    }
    let effect = handle_key(&mut app, KeyInput::Enter, 0);
    match effect {
        KeyEffect::Export(name) => assert_eq!(name, "out.log"),
        other => panic!("expected an export effect, got {:?}", other),
    }
    assert_eq!(app.input_mode, InputMode::Normal);
}

#[test]
fn highlight_commit_sets_status() {
    let mut app = fresh();
    handle_key(&mut app, KeyInput::Char('*'), 5);
    for c in "warn".chars() {
        handle_key(&mut app, KeyInput::Char(c), 5);
    }
    handle_key(&mut app, KeyInput::Enter, 5);
    assert_eq!(app.highlights.len(), 1);
    let (msg, at) = app.status_message.clone().unwrap();
    assert_eq!(msg, "Highlight added (1 active)");
    assert_eq!(at, 5);
    // an empty highlight pattern clears all highlights
    handle_key(&mut app, KeyInput::Char('*'), 6);
    handle_key(&mut app, KeyInput::Enter, 6);
    assert_eq!(app.highlights.len(), 0);
    let (msg, _) = app.status_message.clone().unwrap();
    assert_eq!(msg, "Highlights cleared");
}

#[test]
fn export_lines_layout() {
    let kind = ParserKind::Laravel;
    let mut app = fresh();
    app.add_log(kind.parse("[2024-01-15 10:30:01] production.ERROR: first"));
    app.add_log(kind.parse("frame one"));
    app.add_log(kind.parse("[2024-01-15 10:30:02] production.INFO: second"));
    let lines = app.export_lines();
    assert_eq!(
        lines,
        vec![
            "[2024-01-15 10:30:01] production.ERROR: first".to_string(),
            "frame one".to_string(),
            "[2024-01-15 10:30:02] production.INFO: second".to_string(),
        ]
    );
}

#[test]
fn viewport_window_math() {
    // tail offset when the cursor rides the live tail
    let (sel, off, end) = viewport_window(false, 99, 100, 30);
    assert_eq!((sel, off, end), (99, 70, 100));
    // centered offset when frozen
    let (sel, off, end) = viewport_window(true, 50, 100, 30);
    assert_eq!((sel, off, end), (50, 35, 66));
    // small lists fit entirely
    let (sel, off, end) = viewport_window(false, 2, 5, 30);
    assert_eq!((sel, off, end), (2, 0, 5));
    // a stale cursor is clamped
    let (sel, _, _) = viewport_window(false, 400, 100, 30);
    assert_eq!(sel, 99);
}

#[test]
fn skip_chars_drops_prefix() {
    assert_eq!(skip_chars("hello world", 6), "world");
    assert_eq!(skip_chars("hello", 0), "hello");
    assert_eq!(skip_chars("hi", 5), "");
    // character positions, not bytes
    assert_eq!(skip_chars("日本語abc", 3), "abc");
}

#[test]
fn row_spans_tag_and_marker() {
    let kind = ParserKind::Laravel;
    let mut app = fresh();
    app.add_log(kind.parse("[2024-01-15 10:30:01] production.ERROR: kaboom"));
    app.add_log(kind.parse("frame one"));
    let entry = &app.logs[0];
    let spans = row_spans(entry, 0, &None, &Vec::new());
    assert_eq!(spans.len(), 3);
    assert_eq!(spans[0].text, "[ERROR] ");
    assert_eq!(spans[0].style, SpanStyle::Tag);
    assert_eq!(spans[1].text, "kaboom");
    assert_eq!(spans[1].style, SpanStyle::Plain);
    assert_eq!(spans[2].text, " [+1 lines]");
    assert_eq!(spans[2].style, SpanStyle::Marker);
}

#[test]
fn row_spans_highlight_ranges() {
    let mut app = fresh();
    app.add_log(PlainParser.parse("alpha beta alpha"));
    app.add_highlight("alpha");
    assert_eq!(app.highlights.len(), 1);
    let entry = &app.logs[0];
    let spans = row_spans(entry, 0, &None, &app.highlights);
    let joined: String = spans.iter().map(|s| s.text.as_str()).collect();
    assert_eq!(joined, "alpha beta alpha");
    // both occurrences are split out and styled with the first palette color
    let styled: Vec<_> = spans
        .iter()
        .filter(|s| s.style == SpanStyle::Highlight(0))
        .map(|s| s.text.as_str())
        .collect();
    assert_eq!(styled, vec!["alpha", "alpha"]);
}

#[test]
fn detail_text_fields() {
    let kind = ParserKind::Django;
    let entry = kind.parse("[15/Jan/2024 10:30:11] ERROR [django.request] broke: /api");
    let text = build_detail_text(&entry);
    assert_eq!(
        text,
        "Timestamp: 15/Jan/2024 10:30:11\nLevel: Error\nMessage: broke: /api\nMetadata: django.request\n\n--- Raw ---\n[15/Jan/2024 10:30:11] ERROR [django.request] broke: /api"
    );
}

#[test]
fn detail_pretty_prints_json() {
    let kind = ParserKind::Json;
    let entry = kind.parse(r#"{"level":"info","msg":"hi"}"#);
    let text = detail_content(&entry);
    // pretty-printed JSON spans multiple indented lines
    assert!(text.contains("{\n"));
    assert!(text.contains("\"level\": \"info\""));
    // a non-JSON line falls back to the field-by-field text
    let plain = PlainParser.parse("WARN: watch out");
    let text = detail_content(&plain);
    assert!(text.starts_with("Level: Warn\n"));
}

#[test]
fn ssh_args_shape() {
    let opts = SshOpts {
        target: "user@host".to_string(),
        port: Some(2222),
        key: Some("~/.ssh/id_ed25519".to_string()),
        jump: Some("bastion".to_string()),
    };
    assert_eq!(
        ssh_base_args(&opts),
        vec![
            "-p".to_string(),
            "2222".to_string(),
            "-i".to_string(),
            "~/.ssh/id_ed25519".to_string(),
            "-J".to_string(),
            "bastion".to_string(),
            "user@host".to_string(),
        ]
    );
    let bare = SshOpts { target: "host".to_string(), port: None, key: None, jump: None };
    assert_eq!(ssh_base_args(&bare), vec!["host".to_string()]);
}

#[test]
fn ssh_args_classification() {
    let empty: Vec<String> = vec![];
    assert!(matches!(classify_ssh_args(&empty), SshAction::MissingArgs));
    let file = vec!["/var/log/app.log".to_string()];
    match classify_ssh_args(&file) {
        SshAction::File { path } => assert_eq!(path, "/var/log/app.log"),
        other => panic!("expected a file action, got {:?}", other),
    }
    let docker = vec!["docker".to_string(), "myapi".to_string(), "/log".to_string()];
    match classify_ssh_args(&docker) {
        SshAction::Docker { prefix, file } => {
            assert_eq!(prefix, "myapi");
            assert_eq!(file.as_deref(), Some("/log"));
        }
        other => panic!("expected a docker action, got {:?}", other),
    }
    let short = vec!["docker".to_string()];
    assert!(matches!(classify_ssh_args(&short), SshAction::MissingContainer));
}

#[test]
fn marker_counts_many_lines() {
    let kind = ParserKind::Laravel;
    let mut app = fresh();
    app.add_log(kind.parse("[2024-01-15 10:30:01] production.ERROR: kaboom"));
    for i in 0..12 {
        app.add_log(kind.parse(&format!("frame {}", i)));
    }
    let entry = &app.logs[0];
    let spans = row_spans(entry, 0, &None, &Vec::new());
    assert_eq!(spans.last().unwrap().text, " [+12 lines]");
}

#[test]
fn marker_survives_full_scroll() {
    let kind = ParserKind::Laravel;
    let mut app = fresh();
    app.add_log(kind.parse("[2024-01-15 10:30:01] production.ERROR: kaboom"));
    app.add_log(kind.parse("frame one"));
    let entry = &app.logs[0];
    // scroll far enough that no display text is left
    let spans = row_spans(entry, 500, &None, &Vec::new());
    assert_eq!(spans.len(), 2);
    assert_eq!(spans[0].text, "");
    assert_eq!(spans[0].style, SpanStyle::Plain);
    assert_eq!(spans[1].text, " [+1 lines]");
    assert_eq!(spans[1].style, SpanStyle::Marker);
}

#[test]
fn search_style_wins_equal_range_tie() {
    let mut app = fresh();
    app.add_log(PlainParser.parse("alpha beta"));
    app.search_text = "alpha".to_string();
    app.update_search_regex();
    app.add_highlight("alpha");
    let entry = &app.logs[0];
    let spans = row_spans(entry, 0, &app.search_pattern, &app.highlights);
    // search and highlight match the same range; the stable order keeps the
    // search range first, so its style wins
    assert_eq!(spans[0].text, "alpha");
    assert_eq!(spans[0].style, SpanStyle::Search);
}
