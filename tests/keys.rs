use tmxu::app::{session_label, Action, App, FlashMessage, KeyCode, KeyInput, Mode, SessionCommand};
use tmxu::parse::parse_sessions;

const LISTING: &str = "dev|$0|1|2|1700000000|0|zsh|1|0|zsh|/home/user|1\n\
                       dev|$0|1|2|1700000000|1|make|0|0|make|/home/user/project|1\n\
                       scratch|$1|0|1|1700000001|0|vim|1|0|vim|/tmp|1\n\
                       scratch|$1|0|1|1700000001|0|vim|1|1|bash|/tmp|0\n";

fn ch(c: char) -> KeyInput {
    KeyInput { code: KeyCode::Char(c), ctrl: false }
}

fn key(code: KeyCode) -> KeyInput {
    KeyInput { code, ctrl: false }
}

fn app() -> App {
    App::new(parse_sessions(LISTING), 1000)
}

fn selected(app: &App) -> Vec<String> {
    app.tree_state.selected().to_vec()
}

fn attach_target(a: Action) -> Option<String> {
    match a {
        Action::Attach(t) => Some(t),
        _ => None,
    }
}

#[test]
fn new_focuses_first_window_of_first_session() {
    let app = app();
    assert_eq!(selected(&app), vec!["dev", "0"]);
    assert!(matches!(app.mode, Mode::Normal));
    assert!(app.flash.is_none());
    assert_eq!(app.last_refresh, 1000);
}

#[test]
fn new_with_no_sessions_selects_nothing() {
    let app = App::new(parse_sessions(""), 0);
    assert!(selected(&app).is_empty());
}

#[test]
fn quit_keys() {
    let mut app = app();
    assert!(matches!(app.handle_key_event(ch('q')), Action::Quit));
    assert!(matches!(app.handle_key_event(key(KeyCode::Esc)), Action::Quit));
    let ctrl_c = KeyInput { code: KeyCode::Char('c'), ctrl: true };
    assert!(matches!(app.handle_key_event(ctrl_c), Action::Quit));
}

#[test]
fn enter_attaches_to_selected_window() {
    let mut app = app();
    assert_eq!(attach_target(app.handle_key_event(key(KeyCode::Enter))).unwrap(), "dev:0");
}

#[test]
fn collapse_then_enter_attaches_to_session() {
    let mut app = app();
    assert!(matches!(app.handle_key_event(ch('h')), Action::Nothing));
    assert_eq!(selected(&app), vec!["dev"]);
    assert_eq!(attach_target(app.handle_key_event(key(KeyCode::Enter))).unwrap(), "dev");
}

#[test]
fn refresh_key() {
    let mut app = app();
    assert!(matches!(app.handle_key_event(ch('R')), Action::Refresh));
}

#[test]
fn create_session_flow() {
    let mut app = app();
    assert!(matches!(app.handle_key_event(ch('n')), Action::Nothing));
    for c in "foo".chars() {
        app.handle_key_event(ch(c));
    }
    match &app.mode {
        Mode::CreateSession { input } => assert_eq!(input, "foo"),
        _ => panic!("not in create mode"),
    }
    let cmd = match app.handle_key_event(key(KeyCode::Enter)) {
        Action::Run(cmd) => cmd,
        _ => panic!("no command"),
    };
    match &cmd {
        SessionCommand::Create { name } => assert_eq!(name, "foo"),
        _ => panic!("wrong command"),
    }
    assert!(matches!(app.mode, Mode::Normal));
    let after = app.finish_command(&cmd, Ok(()), 2000);
    assert!(matches!(after, Action::Refresh));
    assert!(matches!(app.mode, Mode::Normal));
    let flash = app.flash.as_ref().unwrap();
    assert!(!flash.text.is_empty());
    assert_eq!(flash.text, "Created session 'foo'");
}

#[test]
fn create_trims_the_name() {
    let mut app = app();
    app.handle_key_event(ch('n'));
    for c in "  foo x".chars() {
        app.handle_key_event(ch(c));
    }
    app.handle_key_event(key(KeyCode::Backspace));
    app.handle_key_event(key(KeyCode::Backspace));
    match app.handle_key_event(key(KeyCode::Enter)) {
        Action::Run(SessionCommand::Create { name }) => assert_eq!(name, "foo"),
        _ => panic!("no create"),
    }
}

#[test]
fn create_with_blank_name_cancels() {
    let mut app = app();
    app.handle_key_event(ch('n'));
    app.handle_key_event(ch(' '));
    assert!(matches!(app.handle_key_event(key(KeyCode::Enter)), Action::Nothing));
    assert!(matches!(app.mode, Mode::Normal));
    assert!(app.flash.is_none());
}

#[test]
fn create_failure_sets_error() {
    let mut app = app();
    let cmd = SessionCommand::Create { name: "foo".to_string() };
    let r = app.finish_command(&cmd, Err("Failed to create session: duplicate".to_string()), 5);
    assert!(matches!(r, Action::Nothing));
    assert_eq!(app.flash.as_ref().unwrap().text, "Error: Failed to create session: duplicate");
    assert!(matches!(app.mode, Mode::Normal));
}

#[test]
fn escape_cancels_create() {
    let mut app = app();
    let before = selected(&app);
    app.handle_key_event(ch('n'));
    app.handle_key_event(ch('x'));
    assert!(matches!(app.handle_key_event(key(KeyCode::Esc)), Action::Nothing));
    assert!(matches!(app.mode, Mode::Normal));
    assert_eq!(selected(&app), before);
    assert_eq!(app.sessions.len(), 2);
}

#[test]
fn kill_needs_confirmation() {
    let mut app = app();
    app.handle_key_event(ch('h'));
    assert_eq!(selected(&app), vec!["dev"]);
    app.handle_key_event(ch('d'));
    match &app.mode {
        Mode::ConfirmKill { target } => assert_eq!(target, "dev"),
        _ => panic!("not confirming"),
    }
    assert!(matches!(app.handle_key_event(ch('n')), Action::Nothing));
    assert!(matches!(app.mode, Mode::Normal));
    assert_eq!(selected(&app), vec!["dev"]);
    assert_eq!(app.sessions.len(), 2);
}

#[test]
fn kill_confirmed_with_y() {
    let mut app = app();
    app.handle_key_event(ch('d'));
    match app.handle_key_event(ch('Y')) {
        Action::Run(SessionCommand::Kill { name }) => assert_eq!(name, "dev"),
        _ => panic!("no kill"),
    }
    assert!(matches!(app.mode, Mode::Normal));
    let cmd = SessionCommand::Kill { name: "dev".to_string() };
    assert!(matches!(app.finish_command(&cmd, Ok(()), 9), Action::Refresh));
    assert_eq!(app.flash.as_ref().unwrap().text, "Killed session 'dev'");
}

#[test]
fn rename_to_same_name_cancels() {
    let mut app = app();
    app.handle_key_event(ch('r'));
    match &app.mode {
        Mode::RenameSession { target, input } => {
            assert_eq!(target, "dev");
            assert_eq!(input, "dev");
        }
        _ => panic!("not renaming"),
    }
    app.handle_key_event(ch(' '));
    assert!(matches!(app.handle_key_event(key(KeyCode::Enter)), Action::Nothing));
    assert!(matches!(app.mode, Mode::Normal));
    assert!(app.flash.is_none());
}

#[test]
fn rename_to_new_name() {
    let mut app = app();
    app.handle_key_event(ch('r'));
    for _ in 0..3 {
        app.handle_key_event(key(KeyCode::Backspace));
    }
    for c in "work".chars() {
        app.handle_key_event(ch(c));
    }
    let cmd = match app.handle_key_event(key(KeyCode::Enter)) {
        Action::Run(cmd) => cmd,
        _ => panic!("no rename"),
    };
    match &cmd {
        SessionCommand::Rename { old_name, new_name } => {
            assert_eq!(old_name, "dev");
            assert_eq!(new_name, "work");
        }
        _ => panic!("wrong command"),
    }
    assert!(matches!(app.finish_command(&cmd, Ok(()), 9), Action::Refresh));
    assert_eq!(app.flash.as_ref().unwrap().text, "Renamed 'dev' → 'work'");
}

#[test]
fn digit_selects_window_by_position() {
    let text = "s|$0|0|2|0|7|b|0|0|sh|/|1\n\
                s|$0|0|2|0|3|a|1|0|sh|/|1\n";
    let mut app = App::new(parse_sessions(text), 0);
    assert_eq!(selected(&app), vec!["s", "3"]);
    app.handle_key_event(ch('2'));
    assert_eq!(selected(&app), vec!["s", "7"]);
    app.handle_key_event(ch('1'));
    assert_eq!(selected(&app), vec!["s", "3"]);
    app.handle_key_event(ch('3'));
    assert_eq!(selected(&app), vec!["s", "3"]);
}

#[test]
fn letters_jump_to_sessions() {
    let mut app = app();
    assert!(matches!(app.handle_key_event(ch('b')), Action::Nothing));
    assert_eq!(selected(&app), vec!["scratch", "0"]);
    app.handle_key_event(ch('a'));
    assert_eq!(selected(&app), vec!["dev", "0"]);
    assert_eq!(attach_target(app.handle_key_event(ch('B'))).unwrap(), "scratch:0");
    // no third session: nothing moves
    app.handle_key_event(ch('c'));
    assert_eq!(selected(&app), vec!["scratch", "0"]);
}

#[test]
fn labels() {
    assert_eq!(session_label(0), 'A');
    assert_eq!(session_label(1), 'B');
    assert_eq!(session_label(25), 'Z');
    assert_eq!(session_label(26), '?');
}

#[test]
fn flash_expires_after_three_seconds() {
    let f = FlashMessage::new("hi".to_string(), 1000);
    assert!(!f.is_expired(3999));
    assert!(f.is_expired(4000));
    assert!(!f.is_expired(10));
}

#[test]
fn tick_expires_flash_and_reports_refresh() {
    let mut app = app();
    app.flash = Some(FlashMessage::new("hi".to_string(), 1000));
    assert!(!app.tick(2999));
    assert!(app.flash.is_some());
    assert!(app.tick(4000));
    assert!(app.flash.is_none());
}

#[test]
fn refresh_replaces_hierarchy() {
    let mut app = app();
    app.refresh(Ok(parse_sessions("x|$5|0|1|0|0|w|1|0|sh|/|1\n")), 7000);
    assert_eq!(app.sessions.len(), 1);
    assert_eq!(app.last_refresh, 7000);
    // the cursor is not re-anchored
    assert_eq!(selected(&app), vec!["dev", "0"]);
    app.refresh(Err("tmux error: boom".to_string()), 9000);
    assert_eq!(app.sessions.len(), 1);
    assert_eq!(app.flash.as_ref().unwrap().text, "Refresh failed: tmux error: boom");
    assert!(!app.tick(10999));
    assert!(app.tick(11000));
}

#[test]
fn collapse_and_expand_toggle_open_nodes() {
    let mut app = app();
    let dev = vec!["dev".to_string()];
    assert!(app.tree_state.opened().contains(&dev));
    app.handle_key_event(ch('h'));
    assert_eq!(selected(&app), vec!["dev"]);
    assert!(app.tree_state.opened().contains(&dev));
    app.handle_key_event(key(KeyCode::Left));
    assert_eq!(selected(&app), vec!["dev"]);
    assert!(!app.tree_state.opened().contains(&dev));
    app.handle_key_event(ch('l'));
    assert_eq!(selected(&app), vec!["dev"]);
    assert!(app.tree_state.opened().contains(&dev));
    app.handle_key_event(ch('j'));
    assert!(app.tree_state.opened().contains(&dev));
}
