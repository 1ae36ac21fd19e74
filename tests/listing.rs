use tmxu::model::{pane_leaves, pane_line, TmuxPane, TmuxSession, TmuxWindow};
use tmxu::parse::{interpret_listing, parse_sessions};
use tmxu::text::{decimal_string, shorten_path};

const LISTING: &str = "dev|$0|1|2|1700000000|0|zsh|1|0|zsh|/home/user|1\n\
                       dev|$0|1|2|1700000000|1|make|0|0|make|/home/user/project|1\n\
                       scratch|$1|0|1|1700000001|0|vim|1|0|vim|/tmp|1\n\
                       scratch|$1|0|1|1700000001|0|vim|1|1|bash|/tmp|0\n";

fn pane(index: u32, cmd: &str, path: &str, active: bool) -> TmuxPane {
    TmuxPane {
        index,
        current_command: cmd.to_string(),
        current_path: path.to_string(),
        active,
    }
}

#[test]
fn test_parse_sessions() {
    let sessions = parse_sessions(LISTING);
    assert_eq!(sessions.len(), 2);

    assert_eq!(sessions[0].name, "dev");
    assert!(sessions[0].attached);
    assert_eq!(sessions[0].windows.len(), 2);

    assert_eq!(sessions[1].name, "scratch");
    assert!(!sessions[1].attached);
    assert_eq!(sessions[1].windows.len(), 1);
    assert_eq!(sessions[1].windows[0].panes.len(), 2);
}

#[test]
fn test_parse_empty() {
    let sessions = parse_sessions("");
    assert!(sessions.is_empty());
}

#[test]
fn test_shorten_path() {
    assert_eq!(shorten_path("/home/user/code", Some("/home/user")), "~/code");
    assert_eq!(shorten_path("/tmp/foo", Some("/home/user")), "/tmp/foo");
}

#[test]
fn shorten_path_without_home_keeps_path() {
    assert_eq!(shorten_path("/home/user/code", None), "/home/user/code");
}

#[test]
fn parse_reads_every_field() {
    let sessions = parse_sessions(LISTING);
    let dev = &sessions[0];
    assert_eq!(dev.id, "$0");
    assert_eq!(dev.window_count, 2);
    assert_eq!(dev.created, 1700000000);
    assert_eq!(dev.windows[1].index, 1);
    assert_eq!(dev.windows[1].name, "make");
    assert!(!dev.windows[1].active);
    let p = &dev.windows[1].panes[0];
    assert_eq!(p.current_command, "make");
    assert_eq!(p.current_path, "/home/user/project");
    assert!(p.active);
    let bash = &sessions[1].windows[0].panes[1];
    assert_eq!(bash.index, 1);
    assert_eq!(bash.current_command, "bash");
    assert!(!bash.active);
}

#[test]
fn parse_keeps_one_session_per_name() {
    let text = "a|$0|0|1|5|0|w|1|0|sh|/|1\n\
                b|$1|0|1|6|0|w|1|0|sh|/|1\n\
                a|$9|1|7|8|1|x|0|0|sh|/|1\n";
    let sessions = parse_sessions(text);
    assert_eq!(sessions.len(), 2);
    assert_eq!(sessions[0].name, "a");
    assert_eq!(sessions[1].name, "b");
    // the first line of a session decides its own fields
    assert_eq!(sessions[0].id, "$0");
    assert!(!sessions[0].attached);
    assert_eq!(sessions[0].window_count, 1);
    assert_eq!(sessions[0].windows.len(), 2);
}

#[test]
fn parse_sorts_windows_and_panes_by_index() {
    let text = "s|$0|0|3|0|7|late|0|2|c|/|0\n\
                s|$0|0|3|0|3|early|1|0|a|/|1\n\
                s|$0|0|3|0|7|late|0|0|b|/|1\n\
                s|$0|0|3|0|5|mid|0|0|d|/|1\n";
    let sessions = parse_sessions(text);
    let idx: Vec<u32> = sessions[0].windows.iter().map(|w| w.index).collect();
    assert_eq!(idx, vec![3, 5, 7]);
    let panes: Vec<u32> = sessions[0].windows[2].panes.iter().map(|p| p.index).collect();
    assert_eq!(panes, vec![0, 2]);
    assert_eq!(sessions[0].windows[2].panes[0].current_command, "b");
}

#[test]
fn parse_is_deterministic() {
    let a = parse_sessions(LISTING);
    let b = parse_sessions(LISTING);
    assert_eq!(a.len(), b.len());
    for (x, y) in a.iter().zip(b.iter()) {
        assert_eq!(x.name, y.name);
        let wx: Vec<u32> = x.windows.iter().map(|w| w.index).collect();
        let wy: Vec<u32> = y.windows.iter().map(|w| w.index).collect();
        assert_eq!(wx, wy);
    }
}

#[test]
fn parse_skips_short_lines() {
    let text = "junk\nx|y|z\ns|$0|0|1|0|0|w|1|0|sh|/|1\n";
    let sessions = parse_sessions(text);
    assert_eq!(sessions.len(), 1);
    assert_eq!(sessions[0].name, "s");
}

#[test]
fn parse_defaults_bad_numbers_to_zero() {
    let text = "s|$0|0|many|-4|x|w|1|+3|sh|/|1\n";
    let sessions = parse_sessions(text);
    assert_eq!(sessions[0].window_count, 0);
    assert_eq!(sessions[0].created, 0);
    assert_eq!(sessions[0].windows[0].index, 0);
    assert_eq!(sessions[0].windows[0].panes[0].index, 3);
    let text = "s|$0|0|4294967296|18446744073709551615|4294967295|w|1|0|sh|/|1\n";
    let sessions = parse_sessions(text);
    assert_eq!(sessions[0].window_count, 0);
    assert_eq!(sessions[0].created, u64::MAX);
    assert_eq!(sessions[0].windows[0].index, u32::MAX);
}

#[test]
fn parse_reads_flags() {
    let text = "s|$0|yes|1|0|0|w|2|0|sh|/|0 \r\nt|$1|0|1|0|0|w|0|0|sh|/|true";
    let sessions = parse_sessions(text);
    assert_eq!(sessions.len(), 2);
    assert!(sessions[0].attached);
    assert!(sessions[0].windows[0].active);
    assert!(!sessions[0].windows[0].panes[0].active);
    assert!(!sessions[1].attached);
    assert!(!sessions[1].windows[0].active);
    assert!(sessions[1].windows[0].panes[0].active);
}

#[test]
fn listing_success_is_parsed() {
    let r = interpret_listing(true, LISTING, "");
    assert_eq!(r.unwrap().len(), 2);
}

#[test]
fn listing_without_server_is_empty() {
    let r = interpret_listing(false, "", "no server running on /tmp/tmux-0/default\n");
    assert!(r.unwrap().is_empty());
    let r = interpret_listing(false, "", "error: no sessions");
    assert!(r.unwrap().is_empty());
}

#[test]
fn listing_failure_is_an_error() {
    let r = interpret_listing(false, "", "  server exited unexpectedly\n");
    assert_eq!(r.err().unwrap(), "tmux error: server exited unexpectedly");
}

#[test]
fn window_summary_prefers_active_pane() {
    let w = TmuxWindow {
        index: 0,
        name: "w".to_string(),
        active: true,
        panes: vec![pane(0, "zsh", "/tmp", false), pane(1, "vim", "/home/u/src", true)],
    };
    assert_eq!(TmuxSession::window_summary(&w, Some("/home/u")), "vim  ~/src");
    let w = TmuxWindow {
        index: 0,
        name: "w".to_string(),
        active: true,
        panes: vec![pane(0, "zsh", "/tmp", false), pane(1, "vim", "/srv", false)],
    };
    assert_eq!(TmuxSession::window_summary(&w, None), "zsh  /tmp");
    let w = TmuxWindow { index: 0, name: "w".to_string(), active: true, panes: vec![] };
    assert_eq!(TmuxSession::window_summary(&w, None), "");
}

#[test]
fn single_pane_window_has_no_leaves() {
    let one = TmuxWindow {
        index: 0,
        name: "w".to_string(),
        active: true,
        panes: vec![pane(4, "sh", "/", true)],
    };
    assert!(pane_leaves(&one).is_empty());
    let two = TmuxWindow {
        index: 0,
        name: "w".to_string(),
        active: true,
        panes: vec![pane(0, "sh", "/", true), pane(12, "sh", "/", false)],
    };
    assert_eq!(pane_leaves(&two), vec!["0".to_string(), "12".to_string()]);
}

#[test]
fn pane_line_text() {
    let p = pane(3, "vim", "/home/u/x", true);
    assert_eq!(pane_line(&p, Some("/home/u")), "* pane 3: vim  ~/x");
    let p = pane(10, "sh", "/tmp", false);
    assert_eq!(pane_line(&p, None), "  pane 10: sh  /tmp");
}

#[test]
fn decimal_text() {
    assert_eq!(decimal_string(0), "0");
    assert_eq!(decimal_string(907), "907");
    assert_eq!(decimal_string(u32::MAX), "4294967295");
}
