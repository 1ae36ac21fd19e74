//! Sessions, windows and panes as reported by tmux, with their views.

use vstd::prelude::*;
use crate::parse::{first_index, lemma_first_index};
use crate::text::{decimal, decimal_string, short_path, shorten_path};

verus! {

/// One pane of a window.
pub struct TmuxPane {
    pub index: u32,
    pub current_command: String,
    pub current_path: String,
    pub active: bool,
}

/// One window of a session, its panes sorted by index.
pub struct TmuxWindow {
    pub index: u32,
    pub name: String,
    pub active: bool,
    pub panes: Vec<TmuxPane>,
}

/// One session, its windows sorted by index.
pub struct TmuxSession {
    pub name: String,
    pub id: String,
    pub attached: bool,
    pub window_count: u32,
    pub created: u64,
    pub windows: Vec<TmuxWindow>,
}

pub struct PaneView {
    pub index: u32,
    pub command: Seq<char>,
    pub path: Seq<char>,
    pub active: bool,
}

pub struct WindowView {
    pub index: u32,
    pub name: Seq<char>,
    pub active: bool,
    pub panes: Seq<PaneView>,
}

pub struct SessionView {
    pub name: Seq<char>,
    pub id: Seq<char>,
    pub attached: bool,
    pub window_count: u32,
    pub created: u64,
    pub windows: Seq<WindowView>,
}

impl View for TmuxPane {
    type V = PaneView;

    open spec fn view(&self) -> PaneView {
        PaneView {
            index: self.index,
            command: self.current_command@,
            path: self.current_path@,
            active: self.active,
        }
    }
}

pub open spec fn panes_view(ps: Seq<TmuxPane>) -> Seq<PaneView> {
    ps.map_values(|p: TmuxPane| p@)
}

impl View for TmuxWindow {
    type V = WindowView;

    open spec fn view(&self) -> WindowView {
        WindowView {
            index: self.index,
            name: self.name@,
            active: self.active,
            panes: panes_view(self.panes@),
        }
    }
}

pub open spec fn windows_view(ws: Seq<TmuxWindow>) -> Seq<WindowView> {
    ws.map_values(|w: TmuxWindow| w@)
}

impl View for TmuxSession {
    type V = SessionView;

    open spec fn view(&self) -> SessionView {
        SessionView {
            name: self.name@,
            id: self.id@,
            attached: self.attached,
            window_count: self.window_count,
            created: self.created,
            windows: windows_view(self.windows@),
        }
    }
}

/// The hierarchy as a sequence of session views.
pub open spec fn sessions_view(ss: Seq<TmuxSession>) -> Seq<SessionView> {
    ss.map_values(|s: TmuxSession| s@)
}


/// The pane a window is summarised by: its first active pane, else its first.
pub open spec fn summary_pane(ps: Seq<PaneView>) -> Option<PaneView> {
    let k = first_index(ps, |p: PaneView| p.active) as int;
    if k < ps.len() {
        Some(ps[k])
    } else if ps.len() > 0 {
        Some(ps[0])
    } else {
        None
    }
}

/// A window's summary: its pane's command, two spaces, and its short path.
pub open spec fn summary_text(w: WindowView, home: Option<Seq<char>>) -> Seq<char> {
    match summary_pane(w.panes) {
        Some(p) => p.command + "  "@ + short_path(p.path, home),
        None => Seq::empty(),
    }
}

pub open spec fn home_view(home: Option<&str>) -> Option<Seq<char>> {
    match home {
        Some(h) => Some(h@),
        None => None,
    }
}

impl TmuxSession {
    /// The short summary of a window: the command and path of its active
    /// pane, with `home` shortened to `~`.
    pub fn window_summary(window: &TmuxWindow, home: Option<&str>) -> (r: String)
        ensures
            r@ == summary_text(window@, home_view(home)),
    {
        let ghost pv = panes_view(window.panes@);
        let mut k: usize = 0;
        while k < window.panes.len() && !window.panes[k].active
            invariant
                k <= window.panes@.len(),
                pv == panes_view(window.panes@),
                forall|j: int| 0 <= j < k ==> !(#[trigger] pv[j]).active,
            decreases window.panes@.len() - k,
        {
            assert(pv[k as int] == window.panes@[k as int]@);
            k = k + 1;
        }
        proof {
            if k < window.panes@.len() {
                assert(pv[k as int] == window.panes@[k as int]@);
            }
            lemma_first_index(pv, |p: PaneView| p.active, k as int);
        }
        let i = if k < window.panes.len() {
            k
        } else if window.panes.len() > 0 {
            0
        } else {
            return String::new();
        };
        assert(pv[i as int] == window.panes@[i as int]@);
        let p = &window.panes[i];
        let mut r = p.current_command.clone();
        r.append("  ");
        let path = shorten_path(p.current_path.as_str(), home);
        r.append(path.as_str());
        r
    }
}

/// The identifiers of a window's pane leaves: one per pane, its index as
/// text, where the window has two panes or more; none for a single pane.
pub fn pane_leaves(window: &TmuxWindow) -> (r: Vec<String>)
    ensures
        window.panes@.len() <= 1 ==> r@.len() == 0,
        window.panes@.len() > 1 ==> r@.len() == window.panes@.len(),
        forall|i: int| 0 <= i < r@.len() ==> (#[trigger] r@[i])@ == decimal(window.panes@[i].index as nat),
{
    let mut r: Vec<String> = Vec::new();
    if window.panes.len() <= 1 {
        return r;
    }
    let mut i: usize = 0;
    while i < window.panes.len()
        invariant
            i <= window.panes@.len(),
            r@.len() == i,
            forall|j: int| 0 <= j < i ==> (#[trigger] r@[j])@ == decimal(window.panes@[j].index as nat),
        decreases window.panes@.len() - i,
    {
        r.push(decimal_string(window.panes[i].index));
        i = i + 1;
    }
    r
}

/// The text of a pane leaf: a `*` marker for the active pane, the index,
/// the command and the short path.
pub open spec fn pane_text(p: PaneView, home: Option<Seq<char>>) -> Seq<char> {
    (if p.active { "* "@ } else { "  "@ }) + "pane "@ + decimal(p.index as nat) + ": "@ + p.command
        + "  "@ + short_path(p.path, home)
}

/// Writes the text of a pane leaf.
pub fn pane_line(pane: &TmuxPane, home: Option<&str>) -> (r: String)
    ensures
        r@ == pane_text(pane@, home_view(home)),
{
    let mut r = if pane.active { String::from_str("* ") } else { String::from_str("  ") };
    r.append("pane ");
    let idx = decimal_string(pane.index);
    r.append(idx.as_str());
    r.append(": ");
    r.append(pane.current_command.as_str());
    r.append("  ");
    let path = shorten_path(pane.current_path.as_str(), home);
    r.append(path.as_str());
    r
}

} // verus!
