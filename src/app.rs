//! The application state: the hierarchy, the tree cursor, the input mode and
//! the flash message, and the key handling that moves between modes.

use vstd::prelude::*;
use tui_tree_widget::TreeState;
use crate::model::{TmuxSession, SessionView, sessions_view};
use crate::parse::{first_index, lemma_first_index};
use crate::text::{decimal, decimal_string, trimmed, trim_text, push_char, pop_char};
use crate::tree::{
    tree_selected, tree_opened, path_view, parent_of, new_tree, selected_path, select_path,
    open_path, move_down, move_up, jump_first, jump_last, expand, collapse,
};

verus! {

/// How long a flash message stays, in milliseconds.
pub const FLASH_LIFETIME_MS: u64 = 3000;

/// How often the hierarchy is refreshed without being asked, in milliseconds.
pub const AUTO_REFRESH_MS: u64 = 2000;

/// The input mode.
pub enum Mode {
    Normal,
    CreateSession { input: String },
    RenameSession { target: String, input: String },
    ConfirmKill { target: String },
}

pub enum ModeView {
    Normal,
    CreateSession { input: Seq<char> },
    RenameSession { target: Seq<char>, input: Seq<char> },
    ConfirmKill { target: Seq<char> },
}

impl View for Mode {
    type V = ModeView;

    open spec fn view(&self) -> ModeView {
        match self {
            Mode::Normal => ModeView::Normal,
            Mode::CreateSession { input } => ModeView::CreateSession { input: input@ },
            Mode::RenameSession { target, input } => ModeView::RenameSession {
                target: target@,
                input: input@,
            },
            Mode::ConfirmKill { target } => ModeView::ConfirmKill { target: target@ },
        }
    }
}

/// A change to tmux's sessions that the caller is asked to carry out.
pub enum SessionCommand {
    Create { name: String },
    Rename { old_name: String, new_name: String },
    Kill { name: String },
}

pub enum CommandView {
    Create { name: Seq<char> },
    Rename { old_name: Seq<char>, new_name: Seq<char> },
    Kill { name: Seq<char> },
}

impl View for SessionCommand {
    type V = CommandView;

    open spec fn view(&self) -> CommandView {
        match self {
            SessionCommand::Create { name } => CommandView::Create { name: name@ },
            SessionCommand::Rename { old_name, new_name } => CommandView::Rename {
                old_name: old_name@,
                new_name: new_name@,
            },
            SessionCommand::Kill { name } => CommandView::Kill { name: name@ },
        }
    }
}

/// What the caller is to do after a key.
pub enum Action {
    Quit,
    Attach(String),
    Refresh,
    Run(SessionCommand),
    Nothing,
}

pub enum ActionView {
    Quit,
    Attach(Seq<char>),
    Refresh,
    Run(CommandView),
    Nothing,
}

impl View for Action {
    type V = ActionView;

    open spec fn view(&self) -> ActionView {
        match self {
            Action::Quit => ActionView::Quit,
            Action::Attach(t) => ActionView::Attach(t@),
            Action::Refresh => ActionView::Refresh,
            Action::Run(c) => ActionView::Run(c@),
            Action::Nothing => ActionView::Nothing,
        }
    }
}

/// The key of a key press.
#[derive(Clone, Copy)]
pub enum KeyCode {
    Char(char),
    Esc,
    Enter,
    Backspace,
    Up,
    Down,
    Left,
    Right,
    Other,
}

/// A key press, with whether Control was held.
#[derive(Clone, Copy)]
pub struct KeyInput {
    pub code: KeyCode,
    pub ctrl: bool,
}

/// A message shown in the status bar until it expires.
pub struct FlashMessage {
    pub text: String,
    /// When it was made, in milliseconds of the caller's clock.
    pub created: u64,
}

impl FlashMessage {
    pub fn new(text: String, now: u64) -> (r: Self)
        ensures
            r.text@ == text@,
            r.created == now,
    {
        FlashMessage { text, created: now }
    }

    /// Whether the message has reached its lifetime at time `now`.
    pub fn is_expired(&self, now: u64) -> (r: bool)
        ensures
            r == (now as int - self.created as int >= FLASH_LIFETIME_MS as int),
    {
        now >= self.created && now - self.created >= FLASH_LIFETIME_MS
    }
}

/// Maps a session's position to its label letter: `A` for the first, `Z`
/// for the twenty-sixth, `?` beyond.
pub fn session_label(idx: usize) -> (r: char)
    ensures
        idx < 26 ==> r == label_of(idx as nat),
        idx >= 26 ==> r == '?',
{
    if idx < 26 {
        let c = (65u8 + idx as u8) as char;
        c
    } else {
        '?'
    }
}

/// The label letter of a position below 26.
pub open spec fn label_of(idx: nat) -> char {
    ((65 + idx) as u8) as char
}

/// The session position that a label letter names.
pub open spec fn letter_index(c: char) -> int {
    c as int - 'A' as int
}


/// What a key means in normal mode.
pub enum NormalCommand {
    Quit,
    Down,
    Up,
    First,
    Last,
    Expand,
    Collapse,
    Attach,
    StartCreate,
    StartKill,
    StartRename,
    Refresh,
    /// Jump to the session of a label letter, then attach.
    AttachSession(char),
    /// Jump to the session of a label letter.
    OpenSession(char),
    /// Select a window of the selected session by its 1-based position.
    Window(usize),
    Ignore,
}

/// The normal-mode meaning of a typed character.
pub open spec fn char_command(c: char, ctrl: bool) -> NormalCommand {
    if c == 'q' || (c == 'c' && ctrl) {
        NormalCommand::Quit
    } else if c == 'j' {
        NormalCommand::Down
    } else if c == 'k' {
        NormalCommand::Up
    } else if c == 'g' {
        NormalCommand::First
    } else if c == 'G' {
        NormalCommand::Last
    } else if c == ' ' || c == 'l' {
        NormalCommand::Expand
    } else if c == 'h' {
        NormalCommand::Collapse
    } else if c == 'n' {
        NormalCommand::StartCreate
    } else if c == 'd' {
        NormalCommand::StartKill
    } else if c == 'r' {
        NormalCommand::StartRename
    } else if c == 'R' {
        NormalCommand::Refresh
    } else if 'A' <= c <= 'Z' {
        NormalCommand::AttachSession(c)
    } else if 'a' <= c <= 'z' {
        NormalCommand::OpenSession(((c as u32) - 32) as char)
    } else if '1' <= c <= '9' {
        NormalCommand::Window((c as u32 - '0' as u32) as usize)
    } else {
        NormalCommand::Ignore
    }
}

/// The normal-mode meaning of a key.
pub open spec fn command_for(key: KeyInput) -> NormalCommand {
    match key.code {
        KeyCode::Char(c) => char_command(c, key.ctrl),
        KeyCode::Esc => NormalCommand::Quit,
        KeyCode::Down => NormalCommand::Down,
        KeyCode::Up => NormalCommand::Up,
        KeyCode::Right => NormalCommand::Expand,
        KeyCode::Left => NormalCommand::Collapse,
        KeyCode::Enter => NormalCommand::Attach,
        _ => NormalCommand::Ignore,
    }
}

/// Reads a key in normal mode.
pub fn classify(key: KeyInput) -> (r: NormalCommand)
    ensures
        r == command_for(key),
{
    match key.code {
        KeyCode::Char(c) => {
            if c == 'q' || (c == 'c' && key.ctrl) {
                NormalCommand::Quit
            } else if c == 'j' {
                NormalCommand::Down
            } else if c == 'k' {
                NormalCommand::Up
            } else if c == 'g' {
                NormalCommand::First
            } else if c == 'G' {
                NormalCommand::Last
            } else if c == ' ' || c == 'l' {
                NormalCommand::Expand
            } else if c == 'h' {
                NormalCommand::Collapse
            } else if c == 'n' {
                NormalCommand::StartCreate
            } else if c == 'd' {
                NormalCommand::StartKill
            } else if c == 'r' {
                NormalCommand::StartRename
            } else if c == 'R' {
                NormalCommand::Refresh
            } else if 'A' <= c && c <= 'Z' {
                NormalCommand::AttachSession(c)
            } else if 'a' <= c && c <= 'z' {
                NormalCommand::OpenSession(((c as u32) - 32) as u8 as char)
            } else if '1' <= c && c <= '9' {
                NormalCommand::Window((c as u32 - '0' as u32) as usize)
            } else {
                NormalCommand::Ignore
            }
        },
        KeyCode::Esc => NormalCommand::Quit,
        KeyCode::Down => NormalCommand::Down,
        KeyCode::Up => NormalCommand::Up,
        KeyCode::Right => NormalCommand::Expand,
        KeyCode::Left => NormalCommand::Collapse,
        KeyCode::Enter => NormalCommand::Attach,
        _ => NormalCommand::Ignore,
    }
}


/// An input line after one key: Backspace removes the last character, a
/// character is appended, other keys leave it.
pub open spec fn edited(input: Seq<char>, code: KeyCode) -> Seq<char> {
    match code {
        KeyCode::Backspace => if input.len() > 0 { input.drop_last() } else { input },
        KeyCode::Char(c) => input.push(c),
        _ => input,
    }
}

/// The mode and action after a key while a new session's name is typed.
pub open spec fn create_step(input: Seq<char>, code: KeyCode) -> (ModeView, ActionView) {
    match code {
        KeyCode::Esc => (ModeView::Normal, ActionView::Nothing),
        KeyCode::Enter => (ModeView::Normal, create_request(trimmed(input))),
        _ => (ModeView::CreateSession { input: edited(input, code) }, ActionView::Nothing),
    }
}

/// The action for a trimmed new session name: nothing for an empty one.
pub open spec fn create_request(name: Seq<char>) -> ActionView {
    if name.len() == 0 {
        ActionView::Nothing
    } else {
        ActionView::Run(CommandView::Create { name })
    }
}

/// The mode and action after a key while a session's new name is typed.
pub open spec fn rename_step(target: Seq<char>, input: Seq<char>, code: KeyCode) -> (
    ModeView,
    ActionView,
) {
    match code {
        KeyCode::Esc => (ModeView::Normal, ActionView::Nothing),
        KeyCode::Enter => (ModeView::Normal, rename_request(target, trimmed(input))),
        _ => (ModeView::RenameSession { target, input: edited(input, code) }, ActionView::Nothing),
    }
}

/// The action for a trimmed new name: nothing where it is empty or the
/// session's own name.
pub open spec fn rename_request(target: Seq<char>, name: Seq<char>) -> ActionView {
    if name.len() == 0 || name == target {
        ActionView::Nothing
    } else {
        ActionView::Run(CommandView::Rename { old_name: target, new_name: name })
    }
}

/// The mode and action after a key while a kill waits for confirmation:
/// only `y` or `Y` confirms.
pub open spec fn kill_step(target: Seq<char>, code: KeyCode) -> (ModeView, ActionView) {
    match code {
        KeyCode::Char(c) => if c == 'y' || c == 'Y' {
            (ModeView::Normal, ActionView::Run(CommandView::Kill { name: target }))
        } else {
            (ModeView::Normal, ActionView::Nothing)
        },
        _ => (ModeView::Normal, ActionView::Nothing),
    }
}

/// The action that asks to create a session with an already trimmed name.
pub fn request_create(name: String) -> (r: Action)
    ensures
        r@ == create_request(name@),
{
    if name.as_str().unicode_len() == 0 {
        Action::Nothing
    } else {
        Action::Run(SessionCommand::Create { name })
    }
}

/// The action that asks to rename `target` to an already trimmed name.
pub fn request_rename(target: &String, name: String) -> (r: Action)
    ensures
        r@ == rename_request(target@, name@),
{
    if name.as_str().unicode_len() == 0 || name == *target {
        Action::Nothing
    } else {
        Action::Run(SessionCommand::Rename { old_name: target.clone(), new_name: name })
    }
}

/// The attach target of a selection: the session, or `session:window`.
pub open spec fn attach_view(sel: Seq<Seq<char>>) -> ActionView {
    if sel.len() == 0 {
        ActionView::Nothing
    } else if sel.len() == 1 {
        ActionView::Attach(sel[0])
    } else {
        ActionView::Attach(sel[0] + seq![':'] + sel[1])
    }
}

/// Selection and open nodes after a jump to the session at position `i`:
/// the session opens and its first window, or else the session itself, is
/// selected. A position with no session changes nothing.
pub open spec fn session_jump(
    h: Seq<SessionView>,
    i: int,
    sel: Seq<Seq<char>>,
    op: Set<Seq<Seq<char>>>,
) -> (Seq<Seq<char>>, Set<Seq<Seq<char>>>) {
    if 0 <= i < h.len() {
        let s = h[i];
        (
            if s.windows.len() > 0 {
                seq![s.name, decimal(s.windows[0].index as nat)]
            } else {
                seq![s.name]
            },
            op.insert(seq![s.name]),
        )
    } else {
        (sel, op)
    }
}

/// Selection and open nodes after choosing the window at 1-based position
/// `pos` of the selected session, counted in index order. Nothing changes
/// where nothing is selected, the session is gone, or it has no such window.
pub open spec fn window_jump(
    h: Seq<SessionView>,
    pos: int,
    sel: Seq<Seq<char>>,
    op: Set<Seq<Seq<char>>>,
) -> (Seq<Seq<char>>, Set<Seq<Seq<char>>>) {
    if sel.len() == 0 {
        (sel, op)
    } else {
        let k = first_index(h, |s: SessionView| s.name == sel[0]) as int;
        if k < h.len() && 1 <= pos <= h[k].windows.len() {
            (seq![sel[0], decimal(h[k].windows[pos - 1].index as nat)], op.insert(seq![sel[0]]))
        } else {
            (sel, op)
        }
    }
}

/// The flash text after a command succeeded.
pub open spec fn done_text(c: CommandView) -> Seq<char> {
    match c {
        CommandView::Create { name } => "Created session '"@ + name + "'"@,
        CommandView::Rename { old_name, new_name } => "Renamed '"@ + old_name + "' → '"@ + new_name
            + "'"@,
        CommandView::Kill { name } => "Killed session '"@ + name + "'"@,
    }
}

/// The flash text after a command failed with message `e`.
pub open spec fn error_text(e: Seq<char>) -> Seq<char> {
    "Error: "@ + e
}

/// The flash text after a refresh failed with message `e`.
pub open spec fn refresh_error_text(e: Seq<char>) -> Seq<char> {
    "Refresh failed: "@ + e
}

fn joined(a: &str, b: &str) -> (r: String)
    ensures
        r@ == a@ + b@,
{
    let mut r = String::from_str(a);
    r.append(b);
    r
}

fn done_message(c: &SessionCommand) -> (r: String)
    ensures
        r@ == done_text(c@),
{
    match c {
        SessionCommand::Create { name } => {
            let mut t = joined("Created session '", name.as_str());
            t.append("'");
            t
        },
        SessionCommand::Rename { old_name, new_name } => {
            let mut t = joined("Renamed '", old_name.as_str());
            t.append("' → '");
            t.append(new_name.as_str());
            t.append("'");
            t
        },
        SessionCommand::Kill { name } => {
            let mut t = joined("Killed session '", name.as_str());
            t.append("'");
            t
        },
    }
}

/// The whole application state.
pub struct App {
    pub sessions: Vec<TmuxSession>,
    pub tree_state: TreeState<String>,
    pub mode: Mode,
    pub flash: Option<FlashMessage>,
    /// When the hierarchy was last refreshed, in milliseconds.
    pub last_refresh: u64,
}

/// Everything but the tree cursor is unchanged.
pub open spec fn same_but_tree(o: App, n: App) -> bool {
    &&& n.sessions == o.sessions
    &&& n.mode == o.mode
    &&& n.flash == o.flash
    &&& n.last_refresh == o.last_refresh
}

/// Everything but the mode is unchanged.
pub open spec fn same_but_mode(o: App, n: App) -> bool {
    &&& n.sessions == o.sessions
    &&& n.tree_state == o.tree_state
    &&& n.flash == o.flash
    &&& n.last_refresh == o.last_refresh
}

pub open spec fn selection(a: App) -> Seq<Seq<char>> {
    tree_selected(a.tree_state)
}

pub open spec fn open_nodes(a: App) -> Set<Seq<Seq<char>>> {
    tree_opened(a.tree_state)
}

pub open spec fn hierarchy(a: App) -> Seq<SessionView> {
    sessions_view(a.sessions@)
}

/// The state and action after a normal-mode command.
pub open spec fn normal_post(o: App, n: App, cmd: NormalCommand, r: ActionView) -> bool {
    let sel = selection(o);
    let op = open_nodes(o);
    match cmd {
        NormalCommand::Quit => n == o && r == ActionView::Quit,
        NormalCommand::Down | NormalCommand::Up | NormalCommand::First | NormalCommand::Last => {
            same_but_tree(o, n) && open_nodes(n) == op && r == ActionView::Nothing
        },
        NormalCommand::Expand => {
            &&& same_but_tree(o, n)
            &&& selection(n) == sel
            &&& open_nodes(n) == if sel.len() == 0 { op } else { op.insert(sel) }
            &&& r == ActionView::Nothing
        },
        NormalCommand::Collapse => {
            &&& same_but_tree(o, n)
            &&& op.contains(sel) ==> open_nodes(n) == op.remove(sel) && selection(n) == sel
            &&& !op.contains(sel) ==> open_nodes(n) == op && selection(n) == parent_of(sel)
            &&& r == ActionView::Nothing
        },
        NormalCommand::Attach => n == o && r == attach_view(sel),
        NormalCommand::StartCreate => {
            &&& same_but_mode(o, n)
            &&& n.mode@ == ModeView::CreateSession { input: Seq::empty() }
            &&& r == ActionView::Nothing
        },
        NormalCommand::StartKill => {
            &&& same_but_mode(o, n)
            &&& n.mode@ == if sel.len() > 0 { ModeView::ConfirmKill { target: sel[0] } } else { o.mode@ }
            &&& r == ActionView::Nothing
        },
        NormalCommand::StartRename => {
            &&& same_but_mode(o, n)
            &&& n.mode@ == if sel.len() > 0 {
                ModeView::RenameSession { target: sel[0], input: sel[0] }
            } else {
                o.mode@
            }
            &&& r == ActionView::Nothing
        },
        NormalCommand::Refresh => n == o && r == ActionView::Refresh,
        NormalCommand::AttachSession(c) => {
            &&& same_but_tree(o, n)
            &&& (selection(n), open_nodes(n)) == session_jump(hierarchy(o), letter_index(c), sel, op)
            &&& r == attach_view(selection(n))
        },
        NormalCommand::OpenSession(c) => {
            &&& same_but_tree(o, n)
            &&& (selection(n), open_nodes(n)) == session_jump(hierarchy(o), letter_index(c), sel, op)
            &&& r == ActionView::Nothing
        },
        NormalCommand::Window(d) => {
            &&& same_but_tree(o, n)
            &&& (selection(n), open_nodes(n)) == window_jump(hierarchy(o), d as int, sel, op)
            &&& r == ActionView::Nothing
        },
        NormalCommand::Ignore => n == o && r == ActionView::Nothing,
    }
}

/// The state and action after any key: in normal mode as the key's command
/// says; in the other modes only the mode changes, as the mode's step says.
pub open spec fn key_post(o: App, n: App, key: KeyInput, r: ActionView) -> bool {
    match o.mode@ {
        ModeView::Normal => normal_post(o, n, command_for(key), r),
        ModeView::CreateSession { input } => same_but_mode(o, n) && (n.mode@, r) == create_step(input, key.code),
        ModeView::RenameSession { target, input } => same_but_mode(o, n) && (n.mode@, r) == rename_step(target, input, key.code),
        ModeView::ConfirmKill { target } => same_but_mode(o, n) && (n.mode@, r) == kill_step(target, key.code),
    }
}

fn find_session(sessions: &Vec<TmuxSession>, name: &String) -> (k: usize)
    ensures
        k as int == first_index(sessions_view(sessions@), |s: SessionView| s.name == name@),
{
    let ghost hv = sessions_view(sessions@);
    let mut k: usize = 0;
    while k < sessions.len() && sessions[k].name != *name
        invariant
            k <= sessions@.len(),
            hv == sessions_view(sessions@),
            forall|j: int| 0 <= j < k ==> (#[trigger] hv[j]).name != name@,
        decreases sessions@.len() - k,
    {
        assert(hv[k as int] == sessions@[k as int]@);
        k = k + 1;
    }
    proof {
        if k < sessions@.len() {
            assert(hv[k as int] == sessions@[k as int]@);
        }
        lemma_first_index(hv, |s: SessionView| s.name == name@, k as int);
    }
    k
}

fn one_path(a: String) -> (r: Vec<String>)
    ensures
        path_view(r@) == seq![a@],
        r@.len() == 1,
{
    let r = vec![a];
    assert(path_view(r@) =~= seq![r@[0]@]);
    r
}

fn two_path(a: String, b: String) -> (r: Vec<String>)
    ensures
        path_view(r@) == seq![a@, b@],
        r@.len() == 2,
{
    let r = vec![a, b];
    assert(path_view(r@) =~= seq![r@[0]@, r@[1]@]);
    r
}

impl App {
    /// Opens the session at position `idx` and selects its first window, or
    /// the session itself where it has none.
    pub fn open_and_select(&mut self, idx: usize)
        ensures
            same_but_tree(*old(self), *final(self)),
            (selection(*final(self)), open_nodes(*final(self))) == session_jump(
                hierarchy(*old(self)),
                idx as int,
                selection(*old(self)),
                open_nodes(*old(self)),
            ),
    {
        if idx < self.sessions.len() {
            let ghost h = hierarchy(*self);
            assert(h[idx as int] == self.sessions@[idx as int]@);
            let name = self.sessions[idx].name.clone();
            open_path(&mut self.tree_state, one_path(name.clone()));
            if self.sessions[idx].windows.len() > 0 {
                assert(h[idx as int].windows[0] == self.sessions@[idx as int].windows@[0]@);
                let w = decimal_string(self.sessions[idx].windows[0].index);
                select_path(&mut self.tree_state, two_path(name, w));
            } else {
                select_path(&mut self.tree_state, one_path(name));
            }
        }
    }

    /// Jumps to the session that a label letter names.
    pub fn jump_to_session(&mut self, letter: char)
        requires
            'A' <= letter <= 'Z',
        ensures
            same_but_tree(*old(self), *final(self)),
            (selection(*final(self)), open_nodes(*final(self))) == session_jump(
                hierarchy(*old(self)),
                letter_index(letter),
                selection(*old(self)),
                open_nodes(*old(self)),
            ),
    {
        let idx = (letter as u32 - 'A' as u32) as usize;
        self.open_and_select(idx);
    }

    /// Selects the window at 1-based position `pos` of the selected
    /// session, counted in index order, not by the window's own index.
    pub fn select_window(&mut self, pos: usize)
        ensures
            same_but_tree(*old(self), *final(self)),
            (selection(*final(self)), open_nodes(*final(self))) == window_jump(
                hierarchy(*old(self)),
                pos as int,
                selection(*old(self)),
                open_nodes(*old(self)),
            ),
    {
        let sel = selected_path(&self.tree_state);
        if sel.len() == 0 {
            return;
        }
        let name = sel[0].clone();
        assert(name@ == selection(*self)[0]);
        let k = find_session(&self.sessions, &name);
        let ghost h = hierarchy(*self);
        if k < self.sessions.len() && pos >= 1 && pos <= self.sessions[k].windows.len() {
            assert(h[k as int] == self.sessions@[k as int]@);
            assert(h[k as int].windows[pos - 1] == self.sessions@[k as int].windows@[pos - 1]@);
            let w = decimal_string(self.sessions[k].windows[pos - 1].index);
            open_path(&mut self.tree_state, one_path(name.clone()));
            select_path(&mut self.tree_state, two_path(name, w));
        } else {
            proof {
                if k < self.sessions@.len() {
                    assert(h[k as int] == self.sessions@[k as int]@);
                }
            }
        }
    }

    /// A new state over a hierarchy fetched at time `now`: normal mode, no
    /// message, and the first session opened and focused as a label jump
    /// to it would.
    pub fn new(sessions: Vec<TmuxSession>, now: u64) -> (r: App)
        ensures
            r.sessions == sessions,
            r.mode == Mode::Normal,
            r.flash.is_none(),
            r.last_refresh == now,
            (selection(r), open_nodes(r)) == session_jump(
                sessions_view(sessions@),
                0,
                Seq::empty(),
                Set::empty(),
            ),
    {
        let mut app = App {
            sessions,
            tree_state: new_tree(),
            mode: Mode::Normal,
            flash: None,
            last_refresh: now,
        };
        app.open_and_select(0);
        app
    }

    /// Takes the outcome of a command that a key asked for: on success a
    /// confirmation message and a refresh, on failure an error message and
    /// nothing more. The mode is normal either way.
    pub fn finish_command(&mut self, cmd: &SessionCommand, outcome: Result<(), String>, now: u64) -> (r: Action)
        ensures
            final(self).sessions == old(self).sessions,
            final(self).tree_state == old(self).tree_state,
            final(self).last_refresh == old(self).last_refresh,
            final(self).mode == Mode::Normal,
            final(self).flash is Some,
            final(self).flash->Some_0.created == now,
            outcome is Ok ==> r@ == ActionView::Refresh && final(self).flash->Some_0.text@ == done_text(cmd@),
            outcome is Err ==> r@ == ActionView::Nothing && final(self).flash->Some_0.text@ == error_text(outcome->Err_0@),
    {
        self.mode = Mode::Normal;
        match outcome {
            Ok(()) => {
                self.flash = Some(FlashMessage::new(done_message(cmd), now));
                Action::Refresh
            },
            Err(e) => {
                self.flash = Some(FlashMessage::new(joined("Error: ", e.as_str()), now));
                Action::Nothing
            },
        }
    }

    /// Takes the outcome of a refresh begun at time `now`: a new hierarchy
    /// replaces the old one wholesale; a failure leaves it and sets a
    /// message. The tree cursor is kept either way.
    pub fn refresh(&mut self, fetched: Result<Vec<TmuxSession>, String>, now: u64)
        ensures
            final(self).last_refresh == now,
            final(self).tree_state == old(self).tree_state,
            final(self).mode == old(self).mode,
            fetched is Ok ==> final(self).sessions == fetched->Ok_0 && final(self).flash == old(self).flash,
            fetched is Err ==> {
                &&& final(self).sessions == old(self).sessions
                &&& final(self).flash is Some
                &&& final(self).flash->Some_0.text@ == refresh_error_text(fetched->Err_0@)
                &&& final(self).flash->Some_0.created == now
            },
    {
        self.last_refresh = now;
        match fetched {
            Ok(sessions) => {
                self.sessions = sessions;
            },
            Err(e) => {
                self.flash = Some(FlashMessage::new(joined("Refresh failed: ", e.as_str()), now));
            },
        }
    }

    /// Housekeeping at time `now`: drops an expired message, and says
    /// whether a refresh is due.
    pub fn tick(&mut self, now: u64) -> (refresh_due: bool)
        ensures
            final(self).sessions == old(self).sessions,
            final(self).tree_state == old(self).tree_state,
            final(self).mode == old(self).mode,
            final(self).last_refresh == old(self).last_refresh,
            match old(self).flash {
                Some(f) => if now as int - f.created as int >= FLASH_LIFETIME_MS as int {
                    final(self).flash is None
                } else {
                    final(self).flash == old(self).flash
                },
                None => final(self).flash is None,
            },
            refresh_due == (now as int - old(self).last_refresh as int >= AUTO_REFRESH_MS as int),
    {
        let expired = match &self.flash {
            Some(f) => f.is_expired(now),
            None => false,
        };
        if expired {
            self.flash = None;
        }
        now >= self.last_refresh && now - self.last_refresh >= AUTO_REFRESH_MS
    }

    fn handle_normal_key(&mut self, key: KeyInput) -> (r: Action)
        ensures
            normal_post(*old(self), *final(self), command_for(key), r@),
    {
        match classify(key) {
            NormalCommand::Quit => Action::Quit,
            NormalCommand::Down => {
                move_down(&mut self.tree_state);
                Action::Nothing
            },
            NormalCommand::Up => {
                move_up(&mut self.tree_state);
                Action::Nothing
            },
            NormalCommand::First => {
                jump_first(&mut self.tree_state);
                Action::Nothing
            },
            NormalCommand::Last => {
                jump_last(&mut self.tree_state);
                Action::Nothing
            },
            NormalCommand::Expand => {
                expand(&mut self.tree_state);
                Action::Nothing
            },
            NormalCommand::Collapse => {
                collapse(&mut self.tree_state);
                Action::Nothing
            },
            NormalCommand::Attach => self.attach_action(),
            NormalCommand::StartCreate => {
                self.mode = Mode::CreateSession { input: String::new() };
                Action::Nothing
            },
            NormalCommand::StartKill => {
                let sel = selected_path(&self.tree_state);
                if sel.len() > 0 {
                    assert(sel@[0]@ == selection(*self)[0]);
                    self.mode = Mode::ConfirmKill { target: sel[0].clone() };
                }
                Action::Nothing
            },
            NormalCommand::StartRename => {
                let sel = selected_path(&self.tree_state);
                if sel.len() > 0 {
                    assert(sel@[0]@ == selection(*self)[0]);
                    self.mode = Mode::RenameSession { target: sel[0].clone(), input: sel[0].clone() };
                }
                Action::Nothing
            },
            NormalCommand::Refresh => Action::Refresh,
            NormalCommand::AttachSession(c) => {
                self.jump_to_session(c);
                self.attach_action()
            },
            NormalCommand::OpenSession(c) => {
                self.jump_to_session(c);
                Action::Nothing
            },
            NormalCommand::Window(d) => {
                self.select_window(d);
                Action::Nothing
            },
            NormalCommand::Ignore => Action::Nothing,
        }
    }

    fn edit_input(input: &mut String, code: KeyCode)
        ensures
            final(input)@ == edited(old(input)@, code),
    {
        match code {
            KeyCode::Backspace => pop_char(input),
            KeyCode::Char(c) => push_char(input, c),
            _ => {},
        }
    }

    /// Handles a key in whatever mode the application is in.
    pub fn handle_key_event(&mut self, key: KeyInput) -> (r: Action)
        ensures
            key_post(*old(self), *final(self), key, r@),
    {
        match &self.mode {
            Mode::Normal => self.handle_normal_key(key),
            Mode::CreateSession { input } => {
                let mut input = input.clone();
                match key.code {
                    KeyCode::Esc => {
                        self.mode = Mode::Normal;
                        Action::Nothing
                    },
                    KeyCode::Enter => {
                        self.mode = Mode::Normal;
                        request_create(trim_text(input.as_str()))
                    },
                    _ => {
                        Self::edit_input(&mut input, key.code);
                        self.mode = Mode::CreateSession { input };
                        Action::Nothing
                    },
                }
            },
            Mode::RenameSession { target, input } => {
                let target = target.clone();
                let mut input = input.clone();
                match key.code {
                    KeyCode::Esc => {
                        self.mode = Mode::Normal;
                        Action::Nothing
                    },
                    KeyCode::Enter => {
                        self.mode = Mode::Normal;
                        request_rename(&target, trim_text(input.as_str()))
                    },
                    _ => {
                        Self::edit_input(&mut input, key.code);
                        self.mode = Mode::RenameSession { target, input };
                        Action::Nothing
                    },
                }
            },
            Mode::ConfirmKill { target } => {
                let target = target.clone();
                self.mode = Mode::Normal;
                match key.code {
                    KeyCode::Char(c) => {
                        if c == 'y' || c == 'Y' {
                            Action::Run(SessionCommand::Kill { name: target })
                        } else {
                            Action::Nothing
                        }
                    },
                    _ => Action::Nothing,
                }
            },
        }
    }

    /// The action that attaches to the selection, if there is one.
    pub fn attach_action(&self) -> (r: Action)
        ensures
            r@ == attach_view(selection(*self)),
    {
        let sel = selected_path(&self.tree_state);
        if sel.len() == 0 {
            return Action::Nothing;
        }
        assert(sel@[0]@ == selection(*self)[0]);
        let mut t = sel[0].clone();
        if sel.len() == 1 {
            return Action::Attach(t);
        }
        assert(sel@[1]@ == selection(*self)[1]);
        push_char(&mut t, ':');
        t.append(sel[1].as_str());
        assert(t@ =~= selection(*self)[0] + seq![':'] + selection(*self)[1]);
        Action::Attach(t)
    }
}

/// Labels run from `A` at position 0 to `Z` at position 25, and each such
/// letter leads back to its position; no letter reaches position 26 or more.
pub proof fn lemma_labels(i: nat, c: char)
    ensures
        i < 26 ==> 'A' <= label_of(i) <= 'Z' && letter_index(label_of(i)) == i as int,
        label_of(0) == 'A',
        label_of(25) == 'Z',
        'A' <= c <= 'Z' ==> 0 <= letter_index(c) < 26,
{
}

/// Cancelling a modal state (Esc while a name is typed, any key but `y` or
/// `Y` while a kill waits) returns to normal mode, asks for nothing, and
/// leaves the hierarchy and the tree cursor as they were.
pub proof fn lemma_cancel_keeps_state(o: App, n: App, key: KeyInput, r: ActionView)
    requires
        key_post(o, n, key, r),
        match o.mode@ {
            ModeView::Normal => false,
            ModeView::CreateSession { .. } | ModeView::RenameSession { .. } => key.code is Esc,
            ModeView::ConfirmKill { .. } => !(key.code == KeyCode::Char('y') || key.code == KeyCode::Char('Y')),
        },
    ensures
        n.mode@ == ModeView::Normal,
        r == ActionView::Nothing,
        n.sessions == o.sessions,
        n.tree_state == o.tree_state,
{
}

/// Renaming a session to its own name, once trimmed, is a plain cancel: no
/// command and no refresh.
pub proof fn lemma_rename_to_same_name(target: Seq<char>, input: Seq<char>)
    requires
        trimmed(input) == target,
    ensures
        rename_step(target, input, KeyCode::Enter) == (ModeView::Normal, ActionView::Nothing),
{
}

} // verus!
