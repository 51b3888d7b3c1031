use jigolo::config::Config;
use jigolo::library::Snippet;
use jigolo::library::SnippetLibrary;
use jigolo::tui::app::App;
use jigolo::tui::app::Effect;
use jigolo::tui::app::Key;
use jigolo::tui::app::Mode;
use jigolo::tui::app::Screen;
use jigolo::tui::compose::ComposeFocus;
use jigolo::tui::compose::ComposeState;
use jigolo::tui::compose::ComposeView;
use jigolo::tui::export::ExportOutcome;
use jigolo::tui::theme::Style;
use jigolo::tui::theme::Theme;

fn app_with_library(snippets: Vec<(&str, &str)>) -> App {
    let mut app = App::new(&Config::default());
    app.library = Some(SnippetLibrary {
        snippets: snippets
            .into_iter()
            .map(|(title, content)| Snippet {
                title: title.to_string(),
                content: content.to_string(),
                source: String::new(),
            })
            .collect(),
    });
    app.screen = Screen::Compose;
    app.compose_state = Some(ComposeState::new());
    app
}

fn press(app: &mut App, key: Key) -> Effect {
    app.handle_key_event(key)
}

fn type_text(app: &mut App, text: &str) {
    for c in text.chars() {
        press(app, Key::Char(c));
    }
}

fn status(app: &App) -> &str {
    app.status_message.as_deref().unwrap()
}

#[test]
fn key_3_enters_compose_screen() {
    let mut app = App::new(&Config::default());
    app.enter_compose_screen_from(Ok(SnippetLibrary::default()));

    assert_eq!(app.screen, Screen::Compose);
    assert!(app.compose_state.is_some());
}

#[test]
fn compose_empty_library_shows_message() {
    let app = app_with_library(vec![]);
    match app.compose_view() {
        ComposeView::EmptyLibrary { title, message } => {
            assert_eq!(title, "Compose");
            assert_eq!(
                message,
                "Library is empty. Save snippets with v then s on the Files screen."
            );
        }
        _ => panic!("expected the empty-library message"),
    }
}

#[test]
fn jk_navigates_snippet_list() {
    let mut app = app_with_library(vec![("A", "aaa"), ("B", "bbb"), ("C", "ccc")]);
    assert_eq!(app.compose_state.as_ref().unwrap().cursor, 0);

    press(&mut app, Key::Char('j'));
    assert_eq!(app.compose_state.as_ref().unwrap().cursor, 1);

    press(&mut app, Key::Char('j'));
    assert_eq!(app.compose_state.as_ref().unwrap().cursor, 2);

    // Can't go past last
    press(&mut app, Key::Char('j'));
    assert_eq!(app.compose_state.as_ref().unwrap().cursor, 2);

    press(&mut app, Key::Char('k'));
    assert_eq!(app.compose_state.as_ref().unwrap().cursor, 1);
}

#[test]
fn space_toggles_selection() {
    let mut app = app_with_library(vec![("A", "aaa"), ("B", "bbb")]);

    press(&mut app, Key::Char(' '));
    assert!(app.compose_state.as_ref().unwrap().selected.contains(&0));

    // Toggle off
    press(&mut app, Key::Char(' '));
    assert!(!app.compose_state.as_ref().unwrap().selected.contains(&0));

    // Select second
    press(&mut app, Key::Char('j'));
    press(&mut app, Key::Char(' '));
    assert!(app.compose_state.as_ref().unwrap().selected.contains(&1));
}

#[test]
fn esc_returns_to_files_screen() {
    let mut app = app_with_library(vec![("A", "aaa")]);

    press(&mut app, Key::Esc);
    assert_eq!(app.screen, Screen::Files);
}

#[test]
fn q_quits_app() {
    let mut app = app_with_library(vec![("A", "aaa")]);

    press(&mut app, Key::Char('q'));
    assert!(app.exit);
}

#[test]
fn p_shows_preview_when_selected() {
    let mut app = app_with_library(vec![("A", "aaa")]);
    press(&mut app, Key::Char(' ')); // select
    press(&mut app, Key::Char('p')); // preview

    assert!(app.compose_state.as_ref().unwrap().preview_visible);
}

#[test]
fn p_shows_error_when_nothing_selected() {
    let mut app = app_with_library(vec![("A", "aaa")]);
    press(&mut app, Key::Char('p'));

    assert!(!app.compose_state.as_ref().unwrap().preview_visible);
    assert!(status(&app).contains("No snippets selected"));
}

#[test]
fn esc_in_preview_returns_to_list() {
    let mut app = app_with_library(vec![("A", "aaa")]);
    press(&mut app, Key::Char(' '));
    press(&mut app, Key::Char('p'));
    assert!(app.compose_state.as_ref().unwrap().preview_visible);

    press(&mut app, Key::Esc);
    assert!(!app.compose_state.as_ref().unwrap().preview_visible);
}

#[test]
fn w_enters_export_path_mode() {
    let mut app = app_with_library(vec![("A", "aaa")]);
    press(&mut app, Key::Char(' '));
    press(&mut app, Key::Char('w'));

    assert_eq!(app.mode, Mode::ExportPath);
}

#[test]
fn w_shows_error_when_nothing_selected() {
    let mut app = app_with_library(vec![("A", "aaa")]);
    press(&mut app, Key::Char('w'));

    assert_eq!(app.mode, Mode::Normal);
    assert!(status(&app).contains("No snippets selected"));
}

#[test]
fn export_refuses_missing_parent() {
    let mut app = app_with_library(vec![("A", "aaa")]);
    press(&mut app, Key::Char(' '));
    press(&mut app, Key::Char('w'));

    type_text(&mut app, "/nonexistent/dir/output.md");
    assert_eq!(press(&mut app, Key::Enter), Effect::Export);
    let job = app.execute_export(None).unwrap();
    assert_eq!(job.path, "/nonexistent/dir/output.md");
    app.finish_export(&job, ExportOutcome::ParentMissing);

    assert!(status(&app).contains("Parent directory does not exist"));
}

#[test]
fn esc_cancels_export_path() {
    let mut app = app_with_library(vec![("A", "aaa")]);
    press(&mut app, Key::Char(' '));
    press(&mut app, Key::Char('w'));
    assert_eq!(app.mode, Mode::ExportPath);

    press(&mut app, Key::Esc);
    assert_eq!(app.mode, Mode::Normal);
}

#[test]
fn compose_state_preserved_across_tab_switch() {
    let mut app = app_with_library(vec![("A", "aaa"), ("B", "bbb")]);
    // Select first snippet
    press(&mut app, Key::Char(' '));

    // Switch to Files and back
    press(&mut app, Key::Char('1'));
    assert_eq!(app.screen, Screen::Files);

    press(&mut app, Key::Char('3'));
    assert_eq!(app.screen, Screen::Compose);

    // Selection should be preserved
    assert!(app.compose_state.as_ref().unwrap().selected.contains(&0));
}

#[test]
fn composed_text_returns_selected_content() {
    let mut app = app_with_library(vec![("A", "aaa"), ("B", "bbb"), ("C", "ccc")]);
    // Select first and third
    press(&mut app, Key::Char(' '));
    press(&mut app, Key::Char('j'));
    press(&mut app, Key::Char('j'));
    press(&mut app, Key::Char(' '));

    assert_eq!(app.composed_text(), "aaa\n\nccc");
}

#[test]
fn compose_renders_without_panic() {
    let mut app = app_with_library(vec![("A", "aaa"), ("B", "bbb")]);
    press(&mut app, Key::Char(' '));
    match app.compose_view() {
        ComposeView::List { title, rows, scroll, total, border, preview } => {
            assert_eq!(title, "Compose (1/2 selected)");
            assert_eq!(rows.len(), 2);
            assert_eq!(rows[0].text, "[x] A");
            assert!(rows[0].highlighted);
            assert_eq!(rows[0].style, app.theme.highlight);
            assert_eq!(rows[1].text, "[ ] B");
            assert!(!rows[1].highlighted);
            assert_eq!(rows[1].style, Style::default());
            assert_eq!(scroll, 0);
            assert_eq!(total, 2);
            assert_eq!(border, app.theme.active_border);
            assert_eq!(preview.title, "Preview");
            assert_eq!(preview.text, "aaa");
            assert_eq!(preview.line_count, 1);
            assert_eq!(preview.border, app.theme.inactive_border);
        }
        _ => panic!("expected the snippet list"),
    }
}

#[test]
fn compose_preview_renders_without_panic() {
    let mut app = app_with_library(vec![("A", "aaa")]);
    press(&mut app, Key::Char(' '));
    press(&mut app, Key::Char('p'));
    match app.compose_view() {
        ComposeView::Preview(pane) => {
            assert_eq!(pane.title, "Preview (Esc to return)");
            assert_eq!(pane.text, "aaa");
            assert_eq!(pane.scroll, 0);
            assert_eq!(pane.line_count, 1);
            assert_eq!(pane.border, Style::default());
        }
        _ => panic!("expected the preview"),
    }
}

#[test]
fn selection_order_follows_selection_not_list() {
    let mut app = app_with_library(vec![("A", "aaa"), ("B", "bbb"), ("C", "ccc")]);
    press(&mut app, Key::Char('j'));
    press(&mut app, Key::Char('j'));
    press(&mut app, Key::Char(' '));
    press(&mut app, Key::Char('k'));
    press(&mut app, Key::Char('k'));
    press(&mut app, Key::Char(' '));
    assert_eq!(app.composed_text(), "ccc\n\naaa");
    // Deselecting removes the snippet from the composed text.
    press(&mut app, Key::Char(' '));
    assert_eq!(app.composed_text(), "ccc");
}

#[test]
fn toggle_twice_restores_selection() {
    let mut app = app_with_library(vec![("A", "aaa"), ("B", "bbb")]);
    press(&mut app, Key::Char(' '));
    press(&mut app, Key::Char('j'));
    let before = app.compose_state.as_ref().unwrap().selected.clone();
    press(&mut app, Key::Char(' '));
    press(&mut app, Key::Char(' '));
    assert_eq!(app.compose_state.as_ref().unwrap().selected, before);
}

#[test]
fn empty_library_only_leaves_or_quits() {
    let mut app = app_with_library(vec![]);
    press(&mut app, Key::Char('j'));
    press(&mut app, Key::Char(' '));
    assert_eq!(app.compose_state.as_ref().unwrap().cursor, 0);
    assert!(app.compose_state.as_ref().unwrap().selected.is_empty());
    press(&mut app, Key::Esc);
    assert_eq!(app.screen, Screen::Files);
}

#[test]
fn cursor_scrolls_list_into_view() {
    let mut app = app_with_library(vec![("A", "a"), ("B", "b"), ("C", "c"), ("D", "d")]);
    app.compose_viewport_resized(4); // two rows inside the border
    assert_eq!(app.compose_state.as_ref().unwrap().viewport_height, 2);
    press(&mut app, Key::Down);
    press(&mut app, Key::Down);
    assert_eq!(app.compose_state.as_ref().unwrap().cursor, 2);
    assert_eq!(app.compose_state.as_ref().unwrap().scroll, 1);
    press(&mut app, Key::Down);
    assert_eq!(app.compose_state.as_ref().unwrap().scroll, 2);
    press(&mut app, Key::Up);
    press(&mut app, Key::Up);
    press(&mut app, Key::Up);
    assert_eq!(app.compose_state.as_ref().unwrap().cursor, 0);
    assert_eq!(app.compose_state.as_ref().unwrap().scroll, 0);
    press(&mut app, Key::Up);
    assert_eq!(app.compose_state.as_ref().unwrap().cursor, 0);
}

#[test]
fn preview_scroll_stops_at_last_screenful() {
    let mut app = app_with_library(vec![("A", "1\n2\n3"), ("B", "4")]);
    press(&mut app, Key::Char(' '));
    press(&mut app, Key::Char('j'));
    press(&mut app, Key::Char(' '));
    press(&mut app, Key::Char('p'));
    // "1\n2\n3\n\n4" has five lines; a viewport of three leaves two to scroll.
    app.compose_viewport_resized(5);
    assert_eq!(app.compose_state.as_ref().unwrap().preview_viewport_height, 3);
    for _ in 0..5 {
        press(&mut app, Key::Char('j'));
    }
    assert_eq!(app.compose_state.as_ref().unwrap().preview_scroll, 2);
    press(&mut app, Key::Char('k'));
    assert_eq!(app.compose_state.as_ref().unwrap().preview_scroll, 1);
    press(&mut app, Key::Char('q'));
    assert!(app.exit);
}

#[test]
fn export_path_editing_moves_cursor() {
    let mut app = app_with_library(vec![("A", "aaa")]);
    press(&mut app, Key::Char(' '));
    press(&mut app, Key::Char('w'));
    type_text(&mut app, "ac");
    press(&mut app, Key::Left);
    press(&mut app, Key::Char('b'));
    assert_eq!(app.title_input.iter().collect::<String>(), "abc");
    assert_eq!(app.title_cursor, 2);
    press(&mut app, Key::Right);
    press(&mut app, Key::Right);
    assert_eq!(app.title_cursor, 3);
    press(&mut app, Key::Backspace);
    assert_eq!(app.title_input.iter().collect::<String>(), "ab");
    press(&mut app, Key::Left);
    press(&mut app, Key::Left);
    press(&mut app, Key::Left);
    press(&mut app, Key::Backspace);
    assert_eq!(app.title_input.iter().collect::<String>(), "ab");
    assert_eq!(app.title_cursor, 0);
}

#[test]
fn export_without_path_is_refused() {
    let mut app = app_with_library(vec![("A", "aaa")]);
    press(&mut app, Key::Char(' '));
    press(&mut app, Key::Char('w'));
    type_text(&mut app, "   ");
    assert_eq!(press(&mut app, Key::Enter), Effect::Export);
    assert!(app.execute_export(Some("/home/u".to_string())).is_none());
    assert_eq!(status(&app), "No path entered.");
    assert_eq!(app.mode, Mode::ExportPath);
}

#[test]
fn export_expands_tilde() {
    let mut app = app_with_library(vec![("A", "content")]);
    press(&mut app, Key::Char(' '));
    press(&mut app, Key::Char('w'));
    type_text(&mut app, "  ~/out.md ");
    press(&mut app, Key::Enter);
    let job = app.execute_export(Some("/home/u".to_string())).unwrap();
    assert_eq!(job.path, "/home/u/out.md");
    assert_eq!(job.contents, "content");
    assert_eq!(job.count, 1);
}

#[test]
fn export_tilde_without_home_is_refused() {
    let mut app = app_with_library(vec![("A", "content")]);
    press(&mut app, Key::Char(' '));
    press(&mut app, Key::Char('w'));
    type_text(&mut app, "~/out.md");
    press(&mut app, Key::Enter);
    assert!(app.execute_export(None).is_none());
    assert_eq!(status(&app), "Cannot expand ~: HOME not set.");
}

#[test]
fn export_success_reports_count_and_leaves_input() {
    let mut app = app_with_library(vec![("A", "aaa"), ("B", "bbb")]);
    press(&mut app, Key::Char(' '));
    press(&mut app, Key::Char('j'));
    press(&mut app, Key::Char(' '));
    press(&mut app, Key::Char('w'));
    type_text(&mut app, "/tmp/out.md");
    press(&mut app, Key::Enter);
    let job = app.execute_export(None).unwrap();
    assert_eq!(job.contents, "aaa\n\nbbb");
    app.finish_export(&job, ExportOutcome::Written);
    assert_eq!(status(&app), "Exported 2 snippets to /tmp/out.md");
    assert_eq!(app.mode, Mode::Normal);
    assert!(app.title_input.is_empty());
    assert_eq!(app.title_cursor, 0);
}

#[test]
fn export_of_one_snippet_is_singular() {
    let mut app = app_with_library(vec![("A", "aaa")]);
    press(&mut app, Key::Char(' '));
    press(&mut app, Key::Char('w'));
    type_text(&mut app, "out.md");
    press(&mut app, Key::Enter);
    let job = app.execute_export(None).unwrap();
    app.finish_export(&job, ExportOutcome::Written);
    assert_eq!(status(&app), "Exported 1 snippet to out.md");
}

#[test]
fn export_refusals_keep_the_input_open() {
    let mut app = app_with_library(vec![("A", "aaa")]);
    press(&mut app, Key::Char(' '));
    press(&mut app, Key::Char('w'));
    type_text(&mut app, "out.md");
    press(&mut app, Key::Enter);
    let job = app.execute_export(None).unwrap();
    app.finish_export(&job, ExportOutcome::AlreadyExists);
    assert_eq!(status(&app), "File already exists.");
    assert_eq!(app.mode, Mode::ExportPath);
    app.finish_export(&job, ExportOutcome::Failed("disk full".to_string()));
    assert_eq!(status(&app), "Export failed: disk full");
    assert_eq!(app.mode, Mode::ExportPath);
}

#[test]
fn key_3_asks_for_library_when_none_is_loaded() {
    let mut app = App::new(&Config::default());
    assert_eq!(press(&mut app, Key::Char('3')), Effect::LoadLibrary);
    assert_eq!(app.screen, Screen::Files);
    app.compose_library_loaded(None);
    assert_eq!(status(&app), "Cannot determine library path.");
    app.compose_library_loaded(Some(Err("bad toml".to_string())));
    assert_eq!(status(&app), "Failed to load library: bad toml");
    assert!(app.library.is_none());
    app.compose_library_loaded(Some(Ok(SnippetLibrary::default())));
    assert_eq!(app.screen, Screen::Compose);
}

#[test]
fn library_not_loaded_view() {
    let app = App::new(&Config::default());
    match app.compose_view() {
        ComposeView::NotLoaded { title, message } => {
            assert_eq!(title, "Compose");
            assert_eq!(message, "Library not loaded.");
        }
        _ => panic!("expected the not-loaded message"),
    }
}

#[test]
fn shift_t_toggles_theme_and_config_picks_light() {
    let mut app = App::new(&Config::default());
    assert_eq!(app.theme, Theme::dark());
    press(&mut app, Key::Char('T'));
    assert_eq!(app.theme, Theme::light());
    let light = Config {
        theme: Some("light".to_string()),
        default_paths: None,
        default_depth: None,
    };
    assert_eq!(App::new(&light).theme, Theme::light());
}

#[test]
fn q_quits_from_other_screens() {
    let mut app = App::new(&Config::default());
    press(&mut app, Key::Char('2'));
    assert_eq!(app.screen, Screen::Settings);
    press(&mut app, Key::Char('q'));
    assert!(app.exit);
}

#[test]
fn tab_switches_focus_between_list_and_preview() {
    let mut app = app_with_library(vec![("A", "aaa"), ("B", "bbb")]);
    assert_eq!(app.compose_state.as_ref().unwrap().focus, ComposeFocus::List);
    press(&mut app, Key::Tab);
    assert_eq!(app.compose_state.as_ref().unwrap().focus, ComposeFocus::Preview);
    match app.compose_view() {
        ComposeView::List { border, preview, .. } => {
            assert_eq!(border, app.theme.inactive_border);
            assert_eq!(preview.border, app.theme.active_border);
        }
        _ => panic!("expected the snippet list"),
    }
    press(&mut app, Key::Tab);
    assert_eq!(app.compose_state.as_ref().unwrap().focus, ComposeFocus::List);
}

#[test]
fn live_preview_follows_selection() {
    let mut app = app_with_library(vec![("A", "aaa"), ("B", "bbb")]);
    press(&mut app, Key::Char('j'));
    press(&mut app, Key::Char(' '));
    press(&mut app, Key::Char('k'));
    press(&mut app, Key::Char(' '));
    match app.compose_view() {
        ComposeView::List { preview, .. } => assert_eq!(preview.text, "bbb\n\naaa"),
        _ => panic!("expected the snippet list"),
    }
    press(&mut app, Key::Char('j'));
    press(&mut app, Key::Char(' '));
    match app.compose_view() {
        ComposeView::List { preview, .. } => assert_eq!(preview.text, "aaa"),
        _ => panic!("expected the snippet list"),
    }
}

#[test]
fn arrow_keys_scroll_focused_preview() {
    let mut app = app_with_library(vec![("A", "1\n2\n3\n4"), ("B", "b")]);
    press(&mut app, Key::Char(' '));
    app.compose_viewport_resized(4); // two rows inside the border, for both panes
    assert_eq!(app.compose_state.as_ref().unwrap().viewport_height, 2);
    assert_eq!(app.compose_state.as_ref().unwrap().preview_viewport_height, 2);
    press(&mut app, Key::Tab);
    for _ in 0..5 {
        press(&mut app, Key::Down);
    }
    // Four lines in a viewport of two leave two to scroll; the cursor stays.
    assert_eq!(app.compose_state.as_ref().unwrap().preview_scroll, 2);
    assert_eq!(app.compose_state.as_ref().unwrap().cursor, 0);
    press(&mut app, Key::Up);
    assert_eq!(app.compose_state.as_ref().unwrap().preview_scroll, 1);
    // Space still toggles the snippet under the list's cursor.
    press(&mut app, Key::Char(' '));
    assert!(app.compose_state.as_ref().unwrap().selected.is_empty());
}
