use vstd::prelude::*;
use crate::app::{
    cyclic_match_back, cyclic_match_from, first_time_hit, App, InputMode, ViewMode,
};
use crate::entry::copy_text_spec;
use crate::pattern::{compiled_pattern_rel, Pattern};
use crate::text::{dec_str, pop_char, push_char, u64_to_string};
use vstd::string::StringExecFns;

verus! {

/// One decoded key press, as the modal keymap understands it.
#[derive(Debug, Clone, Copy, PartialEq, Eq, Structural)]
pub enum KeyInput {
    Char(char),
    CtrlC,
    Enter,
    Esc,
    Backspace,
    Up,
    Down,
    Left,
    Right,
    PageUp,
    PageDown,
    Home,
    End,
    Other,
}

/// What the caller must carry out after a key step: nothing, quit, put text
/// on the clipboard, or export the visible entries to the named file.
#[derive(Debug)]
pub enum KeyEffect {
    Nothing,
    Quit,
    Copy(String),
    Export(String),
}

/// How a compiled pattern slot relates to its source text: unset for empty
/// text, else governed by the compile-or-escape rule.
pub open spec fn pattern_rel(text: Seq<char>, p: Option<Pattern>) -> bool {
    if text.len() == 0 {
        p is None
    } else {
        compiled_pattern_rel(text, p)
    }
}

/// The cursor after one `scroll_down`.
pub open spec fn scroll_down_sel(pre: App) -> int {
    if pre.visible_count_spec() > 0 && (pre.selected_index as int) < pre.visible_count_spec() - 1 {
        pre.selected_index + 1
    } else {
        pre.selected_index as int
    }
}

/// The cursor after one `scroll_up`.
pub open spec fn scroll_up_sel(pre: App) -> int {
    if pre.selected_index > 0 {
        pre.selected_index - 1
    } else {
        0int
    }
}

/// The cursor after one `page_down`.
pub open spec fn page_down_sel(pre: App, page: int) -> int {
    if pre.visible_count_spec() > 0 {
        if pre.selected_index + page >= pre.visible_count_spec() {
            pre.visible_count_spec() - 1
        } else {
            pre.selected_index + page
        }
    } else {
        pre.selected_index as int
    }
}

/// The cursor after one `page_up`.
pub open spec fn page_up_sel(pre: App, page: int) -> int {
    if pre.selected_index >= page {
        pre.selected_index - page
    } else {
        0int
    }
}

/// The cursor after `jump_to_end`.
pub open spec fn end_sel(pre: App) -> int {
    if pre.visible_count_spec() > 0 {
        pre.visible_count_spec() - 1
    } else {
        pre.selected_index as int
    }
}

/// The cursor after `search_next`.
pub open spec fn search_next_sel(pre: App) -> int {
    match pre.search_pattern {
        None => pre.selected_index as int,
        Some(p) => if pre.visible_count_spec() == 0 {
            pre.selected_index as int
        } else {
            match cyclic_match_from(
                pre.logs@,
                pre.visible_seq(),
                p@,
                pre.selected_index + 1,
                0,
            ) {
                Some(i) => i,
                None => pre.selected_index as int,
            }
        },
    }
}

/// The cursor after `search_prev`.
pub open spec fn search_prev_sel(pre: App) -> int {
    match pre.search_pattern {
        None => pre.selected_index as int,
        Some(p) => if pre.visible_count_spec() == 0 {
            pre.selected_index as int
        } else {
            match cyclic_match_back(
                pre.logs@,
                pre.visible_seq(),
                p@,
                if pre.selected_index == 0 {
                    pre.visible_count_spec() - 1
                } else {
                    pre.selected_index - 1
                },
                0,
            ) {
                Some(i) => i,
                None => pre.selected_index as int,
            }
        },
    }
}

/// The cursor after `clamp_selection` ran on a state whose visible count is
/// that of `post`.
pub open spec fn clamped_sel(pre_sel: int, post_count: nat) -> int {
    if post_count == 0 {
        0int
    } else if pre_sel >= post_count {
        post_count - 1
    } else {
        pre_sel
    }
}

/// The text after one character edit of an input field.
pub open spec fn edited_text(text: Seq<char>, key: KeyInput) -> Seq<char> {
    match key {
        KeyInput::Backspace => if text.len() > 0 {
            text.drop_last()
        } else {
            text
        },
        KeyInput::Char(c) => text.push(c),
        _ => text,
    }
}

/// The status line announcing how many highlights are active.
pub open spec fn highlight_status_text(n: nat) -> Seq<char> {
    "Highlight added ("@ + dec_str(n) + " active)"@
}

/// The exact effect of one key on the whole state, by view, mode and key:
/// the modal keymap as a transition relation.
pub open spec fn key_rel(pre: App, key: KeyInput, now_ms: u64, post: App, r: KeyEffect) -> bool {
    if key == KeyInput::CtrlC {
        &&& post == (App { should_quit: true, ..pre })
        &&& r is Quit
    } else if pre.view_mode == ViewMode::Detail {
        &&& if key == KeyInput::Esc || key == KeyInput::Char('q') {
            post == (App { view_mode: ViewMode::Feed, ..pre })
        } else {
            post == pre
        }
        &&& r is Nothing
    } else {
        match pre.input_mode {
            InputMode::Filter => {
                &&& r is Nothing
                &&& match key {
                    KeyInput::Esc => {
                        &&& post == (App {
                            input_mode: InputMode::Normal,
                            filter_text: post.filter_text,
                            filter_pattern: post.filter_pattern,
                            selected_index: post.selected_index,
                            ..pre
                        })
                        &&& post.filter_text@.len() == 0
                        &&& post.filter_pattern is None
                        &&& post.selected_index == clamped_sel(
                            pre.selected_index as int,
                            post.visible_count_spec(),
                        )
                    },
                    KeyInput::Enter => {
                        &&& post == (App {
                            input_mode: InputMode::Normal,
                            filter_pattern: post.filter_pattern,
                            selected_index: post.selected_index,
                            ..pre
                        })
                        &&& pattern_rel(pre.filter_text@, post.filter_pattern)
                        &&& post.selected_index == clamped_sel(
                            pre.selected_index as int,
                            post.visible_count_spec(),
                        )
                    },
                    KeyInput::Backspace | KeyInput::Char(_) => {
                        &&& post == (App {
                            filter_text: post.filter_text,
                            filter_pattern: post.filter_pattern,
                            ..pre
                        })
                        &&& post.filter_text@ == edited_text(pre.filter_text@, key)
                        &&& pattern_rel(post.filter_text@, post.filter_pattern)
                    },
                    _ => post == pre,
                }
            },
            InputMode::Search => {
                &&& r is Nothing
                &&& match key {
                    KeyInput::Esc => {
                        &&& post == (App {
                            input_mode: InputMode::Normal,
                            input_buffer: post.input_buffer,
                            search_text: post.search_text,
                            search_pattern: None,
                            ..pre
                        })
                        &&& post.input_buffer@.len() == 0
                        &&& post.search_text@.len() == 0
                    },
                    KeyInput::Enter => {
                        &&& post == (App {
                            input_mode: InputMode::Normal,
                            input_buffer: post.input_buffer,
                            search_text: post.search_text,
                            search_pattern: post.search_pattern,
                            selected_index: post.selected_index,
                            ..pre
                        })
                        &&& post.input_buffer@.len() == 0
                        &&& post.search_text@ == pre.input_buffer@
                        &&& pattern_rel(pre.input_buffer@, post.search_pattern)
                        &&& post.selected_index == search_next_sel(
                            App { search_pattern: post.search_pattern, ..pre },
                        )
                    },
                    KeyInput::Backspace | KeyInput::Char(_) => {
                        &&& post == (App { input_buffer: post.input_buffer, ..pre })
                        &&& post.input_buffer@ == edited_text(pre.input_buffer@, key)
                    },
                    _ => post == pre,
                }
            },
            InputMode::Highlight => {
                &&& r is Nothing
                &&& match key {
                    KeyInput::Esc => {
                        &&& post == (App {
                            input_mode: InputMode::Normal,
                            input_buffer: post.input_buffer,
                            ..pre
                        })
                        &&& post.input_buffer@.len() == 0
                    },
                    KeyInput::Enter => {
                        &&& post == (App {
                            input_mode: InputMode::Normal,
                            input_buffer: post.input_buffer,
                            highlights: post.highlights,
                            status_message: post.status_message,
                            ..pre
                        })
                        &&& post.input_buffer@.len() == 0
                        &&& if pre.input_buffer@.len() == 0 {
                            &&& post.highlights@.len() == 0
                            &&& post.status_message matches Some(sm) && sm.0@
                                == "Highlights cleared"@ && sm.1 == now_ms
                        } else {
                            &&& ({
                                ||| (post.highlights@ == pre.highlights@ && compiled_pattern_rel(
                                    pre.input_buffer@,
                                    None::<Pattern>,
                                ))
                                ||| (post.highlights@.len() == pre.highlights@.len() + 1
                                    && post.highlights@.drop_last() == pre.highlights@
                                    && compiled_pattern_rel(
                                    pre.input_buffer@,
                                    Some(post.highlights@.last().0),
                                ) && post.highlights@.last().1 as int == (pre.highlights@.len()
                                    as int) % 4)
                            })
                            &&& post.status_message matches Some(sm) && sm.0@
                                == highlight_status_text(post.highlights@.len()) && sm.1 == now_ms
                        }
                    },
                    KeyInput::Backspace | KeyInput::Char(_) => {
                        &&& post == (App { input_buffer: post.input_buffer, ..pre })
                        &&& post.input_buffer@ == edited_text(pre.input_buffer@, key)
                    },
                    _ => post == pre,
                }
            },
            InputMode::SavePrompt => {
                match key {
                    KeyInput::Esc => {
                        &&& post == (App {
                            input_mode: InputMode::Normal,
                            input_buffer: post.input_buffer,
                            ..pre
                        })
                        &&& post.input_buffer@.len() == 0
                        &&& r is Nothing
                    },
                    KeyInput::Enter => {
                        &&& post == (App {
                            input_mode: InputMode::Normal,
                            input_buffer: post.input_buffer,
                            ..pre
                        })
                        &&& post.input_buffer@.len() == 0
                        &&& if pre.input_buffer@.len() == 0 {
                            r is Nothing
                        } else {
                            r matches KeyEffect::Export(f) && f@ == pre.input_buffer@
                        }
                    },
                    KeyInput::Backspace | KeyInput::Char(_) => {
                        &&& post == (App { input_buffer: post.input_buffer, ..pre })
                        &&& post.input_buffer@ == edited_text(pre.input_buffer@, key)
                        &&& r is Nothing
                    },
                    _ => post == pre && r is Nothing,
                }
            },
            InputMode::TimeJump => {
                &&& r is Nothing
                &&& match key {
                    KeyInput::Esc => {
                        &&& post == (App {
                            input_mode: InputMode::Normal,
                            input_buffer: post.input_buffer,
                            ..pre
                        })
                        &&& post.input_buffer@.len() == 0
                    },
                    KeyInput::Enter => {
                        &&& post == (App {
                            input_mode: InputMode::Normal,
                            input_buffer: post.input_buffer,
                            selected_index: post.selected_index,
                            frozen: post.frozen,
                            status_message: post.status_message,
                            ..pre
                        })
                        &&& post.input_buffer@.len() == 0
                        &&& if pre.input_buffer@.len() == 0 {
                            &&& post.selected_index == pre.selected_index
                            &&& post.frozen == pre.frozen
                            &&& post.status_message == pre.status_message
                        } else {
                            &&& match first_time_hit(
                                pre.logs@,
                                pre.visible_seq(),
                                pre.input_buffer@,
                                0,
                            ) {
                                Some(j) => post.selected_index == j && post.frozen,
                                None => post.selected_index == pre.selected_index && post.frozen
                                    == pre.frozen,
                            }
                            &&& post.status_message matches Some(sm) && sm.0@ == "Jumped to "@
                                + pre.input_buffer@ && sm.1 == now_ms
                        }
                    },
                    KeyInput::Backspace | KeyInput::Char(_) => {
                        &&& post == (App { input_buffer: post.input_buffer, ..pre })
                        &&& post.input_buffer@ == edited_text(pre.input_buffer@, key)
                    },
                    _ => post == pre,
                }
            },
            InputMode::Normal => {
                match key {
                    KeyInput::Char('q') => post == (App { should_quit: true, ..pre }) && r is Quit,
                    KeyInput::Char(' ') => post == (App { frozen: !pre.frozen, ..pre })
                        && r is Nothing,
                    KeyInput::Char('/') => {
                        &&& post == (App {
                            input_mode: InputMode::Filter,
                            filter_text: post.filter_text,
                            filter_pattern: None,
                            ..pre
                        })
                        &&& post.filter_text@.len() == 0
                        &&& r is Nothing
                    },
                    KeyInput::Char('e') => {
                        &&& post == (App {
                            error_only: !pre.error_only,
                            selected_index: post.selected_index,
                            ..pre
                        })
                        &&& post.selected_index == clamped_sel(
                            pre.selected_index as int,
                            post.visible_count_spec(),
                        )
                        &&& r is Nothing
                    },
                    KeyInput::Enter => {
                        &&& if pre.visible_count_spec() > 0 {
                            post == (App { view_mode: ViewMode::Detail, ..pre })
                        } else {
                            post == pre
                        }
                        &&& r is Nothing
                    },
                    KeyInput::Char('c') => {
                        &&& post == (App {
                            logs: post.logs,
                            scroll_offset: 0,
                            selected_index: 0,
                            ..pre
                        })
                        &&& post.logs@.len() == 0
                        &&& r is Nothing
                    },
                    KeyInput::Up | KeyInput::Char('k') => {
                        &&& post == (App {
                            selected_index: post.selected_index,
                            needs_history_load: post.needs_history_load,
                            ..pre
                        })
                        &&& post.selected_index == scroll_up_sel(pre)
                        &&& post.needs_history_load == (pre.needs_history_load || (
                        pre.selected_index == 0 && pre.history_has_more))
                        &&& r is Nothing
                    },
                    KeyInput::Down | KeyInput::Char('j') => {
                        &&& post == (App { selected_index: post.selected_index, ..pre })
                        &&& post.selected_index == scroll_down_sel(pre)
                        &&& r is Nothing
                    },
                    KeyInput::Right | KeyInput::Char('l') => {
                        &&& post == (App { horizontal_scroll: post.horizontal_scroll, ..pre })
                        &&& post.horizontal_scroll as int == if pre.horizontal_scroll <= usize::MAX
                            - 20 {
                            pre.horizontal_scroll + 20
                        } else {
                            usize::MAX as int
                        }
                        &&& r is Nothing
                    },
                    KeyInput::Left | KeyInput::Char('h') => {
                        &&& post == (App { horizontal_scroll: post.horizontal_scroll, ..pre })
                        &&& post.horizontal_scroll as int == if pre.horizontal_scroll >= 20 {
                            pre.horizontal_scroll - 20
                        } else {
                            0int
                        }
                        &&& r is Nothing
                    },
                    KeyInput::PageDown => {
                        &&& post == (App { selected_index: post.selected_index, ..pre })
                        &&& post.selected_index == page_down_sel(pre, 50)
                        &&& r is Nothing
                    },
                    KeyInput::PageUp => {
                        &&& post == (App {
                            selected_index: post.selected_index,
                            needs_history_load: post.needs_history_load,
                            ..pre
                        })
                        &&& post.selected_index == page_up_sel(pre, 50)
                        &&& post.needs_history_load == (pre.needs_history_load || (
                        post.selected_index == 0 && pre.history_has_more))
                        &&& r is Nothing
                    },
                    KeyInput::Home => {
                        &&& post == (App {
                            selected_index: 0,
                            needs_history_load: post.needs_history_load,
                            ..pre
                        })
                        &&& post.needs_history_load == (pre.needs_history_load
                            || pre.history_has_more)
                        &&& r is Nothing
                    },
                    KeyInput::End => {
                        &&& post == (App { selected_index: post.selected_index, ..pre })
                        &&& post.selected_index == end_sel(pre)
                        &&& r is Nothing
                    },
                    KeyInput::Char('?') => {
                        &&& post == (App {
                            input_mode: InputMode::Search,
                            input_buffer: post.input_buffer,
                            ..pre
                        })
                        &&& post.input_buffer@.len() == 0
                        &&& r is Nothing
                    },
                    KeyInput::Char('n') => {
                        &&& post == (App { selected_index: post.selected_index, ..pre })
                        &&& post.selected_index == search_next_sel(pre)
                        &&& r is Nothing
                    },
                    KeyInput::Char('N') => {
                        &&& post == (App { selected_index: post.selected_index, ..pre })
                        &&& post.selected_index == search_prev_sel(pre)
                        &&& r is Nothing
                    },
                    KeyInput::Char('y') => {
                        &&& post == pre
                        &&& if (pre.selected_index as int) < pre.visible_count_spec() {
                            r matches KeyEffect::Copy(t) && t@ == copy_text_spec(
                                pre.logs@[pre.visible_seq()[pre.selected_index as int]],
                            )
                        } else {
                            r is Nothing
                        }
                    },
                    KeyInput::Char('*') => {
                        &&& post == (App {
                            input_mode: InputMode::Highlight,
                            input_buffer: post.input_buffer,
                            ..pre
                        })
                        &&& post.input_buffer@.len() == 0
                        &&& r is Nothing
                    },
                    KeyInput::Char('s') => {
                        &&& post == (App {
                            input_mode: InputMode::SavePrompt,
                            input_buffer: post.input_buffer,
                            ..pre
                        })
                        &&& post.input_buffer@.len() == 0
                        &&& r is Nothing
                    },
                    KeyInput::Char('g') => {
                        &&& post == (App {
                            input_mode: InputMode::TimeJump,
                            input_buffer: post.input_buffer,
                            ..pre
                        })
                        &&& post.input_buffer@.len() == 0
                        &&& r is Nothing
                    },
                    _ => post == pre && r is Nothing,
                }
            },
        }
    }
}

/// Dispatch one key press through the modal keymap: Ctrl+C always quits;
/// the Detail view only closes; the Feed view behaves by input mode, as
/// `key_rel` states case by case.
pub fn handle_key(app: &mut App, key: KeyInput, now_ms: u64) -> (r: KeyEffect)
    requires
        old(app).wf(),
    ensures
        key_rel(*old(app), key, now_ms, *final(app), r),
        final(app).wf(),
{
    if key == KeyInput::CtrlC {
        app.should_quit = true;
        return KeyEffect::Quit;
    }
    if app.view_mode == ViewMode::Detail {
        if key == KeyInput::Esc || key == KeyInput::Char('q') {
            app.view_mode = ViewMode::Feed;
        }
        return KeyEffect::Nothing;
    }
    match app.input_mode {
        InputMode::Filter => {
            match key {
                KeyInput::Esc => {
                    app.input_mode = InputMode::Normal;
                    app.filter_text = String::new();
                    app.update_filter_regex();
                    app.clamp_selection();
                },
                KeyInput::Enter => {
                    app.input_mode = InputMode::Normal;
                    app.update_filter_regex();
                    app.clamp_selection();
                },
                KeyInput::Backspace => {
                    let _popped = pop_char(&mut app.filter_text);
                    app.update_filter_regex();
                },
                KeyInput::Char(c) => {
                    push_char(&mut app.filter_text, c);
                    app.update_filter_regex();
                },
                _ => {},
            }
            KeyEffect::Nothing
        },
        InputMode::Search => {
            match key {
                KeyInput::Esc => {
                    app.input_mode = InputMode::Normal;
                    app.input_buffer = String::new();
                    app.search_text = String::new();
                    app.search_pattern = None;
                },
                KeyInput::Enter => {
                    app.input_mode = InputMode::Normal;
                    app.search_text = app.input_buffer.clone();
                    app.input_buffer = String::new();
                    app.update_search_regex();
                    app.search_next();
                },
                KeyInput::Backspace => {
                    let _popped = pop_char(&mut app.input_buffer);
                },
                KeyInput::Char(c) => {
                    push_char(&mut app.input_buffer, c);
                },
                _ => {},
            }
            KeyEffect::Nothing
        },
        InputMode::Highlight => {
            match key {
                KeyInput::Esc => {
                    app.input_mode = InputMode::Normal;
                    app.input_buffer = String::new();
                },
                KeyInput::Enter => {
                    app.input_mode = InputMode::Normal;
                    let pattern = app.input_buffer.clone();
                    app.input_buffer = String::new();
                    if pattern.as_str().is_empty() {
                        app.add_highlight(pattern.as_str());
                        app.set_status(String::from_str("Highlights cleared"), now_ms);
                    } else {
                        app.add_highlight(pattern.as_str());
                        let mut msg = String::from_str("Highlight added (");
                        let cnt = u64_to_string(app.highlights.len() as u64);
                        msg.append(cnt.as_str());
                        msg.append(" active)");
                        proof {
                            assert(msg@ =~= highlight_status_text(app.highlights@.len()));
                        }
                        app.set_status(msg, now_ms);
                    }
                },
                KeyInput::Backspace => {
                    let _popped = pop_char(&mut app.input_buffer);
                },
                KeyInput::Char(c) => {
                    push_char(&mut app.input_buffer, c);
                },
                _ => {},
            }
            KeyEffect::Nothing
        },
        InputMode::SavePrompt => {
            match key {
                KeyInput::Esc => {
                    app.input_mode = InputMode::Normal;
                    app.input_buffer = String::new();
                    KeyEffect::Nothing
                },
                KeyInput::Enter => {
                    app.input_mode = InputMode::Normal;
                    let filename = app.input_buffer.clone();
                    app.input_buffer = String::new();
                    if filename.as_str().is_empty() {
                        KeyEffect::Nothing
                    } else {
                        KeyEffect::Export(filename)
                    }
                },
                KeyInput::Backspace => {
                    let _popped = pop_char(&mut app.input_buffer);
                    KeyEffect::Nothing
                },
                KeyInput::Char(c) => {
                    push_char(&mut app.input_buffer, c);
                    KeyEffect::Nothing
                },
                _ => KeyEffect::Nothing,
            }
        },
        InputMode::TimeJump => {
            match key {
                KeyInput::Esc => {
                    app.input_mode = InputMode::Normal;
                    app.input_buffer = String::new();
                },
                KeyInput::Enter => {
                    app.input_mode = InputMode::Normal;
                    let t = app.input_buffer.clone();
                    app.input_buffer = String::new();
                    if !t.as_str().is_empty() {
                        app.jump_to_time(t.as_str());
                        let mut msg = String::from_str("Jumped to ");
                        msg.append(t.as_str());
                        app.set_status(msg, now_ms);
                    }
                },
                KeyInput::Backspace => {
                    let _popped = pop_char(&mut app.input_buffer);
                },
                KeyInput::Char(c) => {
                    push_char(&mut app.input_buffer, c);
                },
                _ => {},
            }
            KeyEffect::Nothing
        },
        InputMode::Normal => {
            match key {
                KeyInput::Char('q') => {
                    app.should_quit = true;
                    KeyEffect::Quit
                },
                KeyInput::Char(' ') => {
                    app.frozen = !app.frozen;
                    KeyEffect::Nothing
                },
                KeyInput::Char('/') => {
                    app.input_mode = InputMode::Filter;
                    app.filter_text = String::new();
                    app.update_filter_regex();
                    KeyEffect::Nothing
                },
                KeyInput::Char('e') => {
                    app.error_only = !app.error_only;
                    app.clamp_selection();
                    KeyEffect::Nothing
                },
                KeyInput::Enter => {
                    let count = app.visible_count();
                    if count > 0 {
                        app.view_mode = ViewMode::Detail;
                    }
                    KeyEffect::Nothing
                },
                KeyInput::Char('c') => {
                    app.clear_logs();
                    KeyEffect::Nothing
                },
                KeyInput::Up | KeyInput::Char('k') => {
                    app.scroll_up();
                    KeyEffect::Nothing
                },
                KeyInput::Down | KeyInput::Char('j') => {
                    app.scroll_down();
                    KeyEffect::Nothing
                },
                KeyInput::Right | KeyInput::Char('l') => {
                    app.scroll_right();
                    KeyEffect::Nothing
                },
                KeyInput::Left | KeyInput::Char('h') => {
                    app.scroll_left();
                    KeyEffect::Nothing
                },
                KeyInput::PageDown => {
                    app.page_down(50);
                    KeyEffect::Nothing
                },
                KeyInput::PageUp => {
                    app.page_up(50);
                    KeyEffect::Nothing
                },
                KeyInput::Home => {
                    app.jump_to_start();
                    KeyEffect::Nothing
                },
                KeyInput::End => {
                    app.jump_to_end();
                    KeyEffect::Nothing
                },
                KeyInput::Char('?') => {
                    app.input_mode = InputMode::Search;
                    app.input_buffer = String::new();
                    KeyEffect::Nothing
                },
                KeyInput::Char('n') => {
                    app.search_next();
                    KeyEffect::Nothing
                },
                KeyInput::Char('N') => {
                    app.search_prev();
                    KeyEffect::Nothing
                },
                KeyInput::Char('y') => {
                    let visible = app.visible_logs();
                    if app.selected_index < visible.len() {
                        let li = visible[app.selected_index];
                        let text = app.logs[li].copy_text();
                        KeyEffect::Copy(text)
                    } else {
                        KeyEffect::Nothing
                    }
                },
                KeyInput::Char('*') => {
                    app.input_mode = InputMode::Highlight;
                    app.input_buffer = String::new();
                    KeyEffect::Nothing
                },
                KeyInput::Char('s') => {
                    app.input_mode = InputMode::SavePrompt;
                    app.input_buffer = String::new();
                    KeyEffect::Nothing
                },
                KeyInput::Char('g') => {
                    app.input_mode = InputMode::TimeJump;
                    app.input_buffer = String::new();
                    KeyEffect::Nothing
                },
                _ => KeyEffect::Nothing,
            }
        },
    }
}

} // verus!
