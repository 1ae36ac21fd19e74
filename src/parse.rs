//! Builds the session hierarchy from the text of `tmux list-panes -aF`, one
//! line per pane with twelve `|`-separated fields.

use vstd::prelude::*;
use crate::model::{
    TmuxPane, TmuxWindow, TmuxSession, PaneView, WindowView, SessionView, panes_view,
    windows_view, sessions_view,
};
use crate::text::{trimmed, trim_text, chars_of, number_or_zero, parse_number_or_zero};

verus! {

/// The pieces of `s` between occurrences of `d`; always at least one.
pub open spec fn split_on(s: Seq<char>, d: char) -> Seq<Seq<char>>
    decreases s.len(),
{
    if s.len() == 0 {
        seq![Seq::<char>::empty()]
    } else {
        let p = split_on(s.drop_last(), d);
        if s.last() == d {
            p.push(Seq::<char>::empty())
        } else {
            p.update(p.len() - 1, p.last().push(s.last()))
        }
    }
}

pub proof fn lemma_split_nonempty(s: Seq<char>, d: char)
    ensures
        split_on(s, d).len() >= 1,
    decreases s.len(),
{
    if s.len() > 0 {
        lemma_split_nonempty(s.drop_last(), d);
    }
}

/// A line ended by a newline loses one carriage return before it.
pub open spec fn strip_cr(l: Seq<char>) -> Seq<char> {
    if l.len() > 0 && l.last() == '\r' { l.drop_last() } else { l }
}

pub open spec fn stripped(ls: Seq<Seq<char>>) -> Seq<Seq<char>> {
    ls.map_values(|l: Seq<char>| strip_cr(l))
}

/// The lines of a text as `str::lines` gives them: split at `\n`, a `\r`
/// before the `\n` removed, and no empty line after a final `\n`.
pub open spec fn text_lines(t: Seq<char>) -> Seq<Seq<char>> {
    let p = split_on(t, '\n');
    let done = stripped(p.drop_last());
    if p.last().len() == 0 { done } else { done.push(p.last()) }
}

/// The fields of one line, read as a pane record.
pub struct RecordView {
    pub session_name: Seq<char>,
    pub session_id: Seq<char>,
    pub attached: bool,
    pub window_count: u32,
    pub created: u64,
    pub window_index: u32,
    pub window_name: Seq<char>,
    pub window_active: bool,
    pub pane: PaneView,
}

/// A flag field: anything but `0` is true.
pub open spec fn flag(f: Seq<char>) -> bool {
    f != seq!['0']
}

/// The record a line holds, or `None` for a line with fewer than twelve fields.
pub open spec fn record_of(line: Seq<char>) -> Option<RecordView> {
    let f = split_on(line, '|');
    if f.len() < 12 {
        None
    } else {
        Some(RecordView {
            session_name: f[0],
            session_id: f[1],
            attached: flag(f[2]),
            window_count: number_or_zero(f[3], u32::MAX as nat) as u32,
            created: number_or_zero(f[4], u64::MAX as nat) as u64,
            window_index: number_or_zero(f[5], u32::MAX as nat) as u32,
            window_name: f[6],
            window_active: flag(f[7]),
            pane: PaneView {
                index: number_or_zero(f[8], u32::MAX as nat) as u32,
                command: f[9],
                path: f[10],
                active: flag(trimmed(f[11])),
            },
        })
    }
}

/// The position of the first element that satisfies `f`, or the length.
pub open spec fn first_index<A>(s: Seq<A>, f: spec_fn(A) -> bool) -> nat
    decreases s.len(),
{
    if s.len() == 0 {
        0
    } else if f(s[0]) {
        0
    } else {
        1 + first_index(s.drop_first(), f)
    }
}

pub proof fn lemma_first_index<A>(s: Seq<A>, f: spec_fn(A) -> bool, i: int)
    requires
        0 <= i <= s.len(),
        forall|k: int| 0 <= k < i ==> !f(#[trigger] s[k]),
        i == s.len() || f(s[i]),
    ensures
        first_index(s, f) == i,
    decreases i,
{
    if i > 0 {
        let t = s.drop_first();
        assert forall|k: int| 0 <= k < i - 1 implies !f(#[trigger] t[k]) by {
            assert(t[k] == s[k + 1]);
        }
        lemma_first_index(t, f, i - 1);
    }
}

/// A pane goes after every pane whose index is not larger.
pub open spec fn add_pane(ps: Seq<PaneView>, p: PaneView) -> Seq<PaneView> {
    ps.insert(first_index(ps, |q: PaneView| q.index > p.index) as int, p)
}

/// A pane joins the window of its index, or a new window placed by index.
pub open spec fn add_to_windows(
    ws: Seq<WindowView>,
    index: u32,
    name: Seq<char>,
    active: bool,
    p: PaneView,
) -> Seq<WindowView> {
    let k = first_index(ws, |w: WindowView| w.index == index);
    if k < ws.len() {
        let w = ws[k as int];
        ws.update(
            k as int,
            WindowView { index: w.index, name: w.name, active: w.active, panes: add_pane(w.panes, p) },
        )
    } else {
        ws.insert(
            first_index(ws, |w: WindowView| w.index > index) as int,
            WindowView { index, name, active, panes: seq![p] },
        )
    }
}

/// A record joins the session of its name, or a new session at the end.
pub open spec fn add_record(h: Seq<SessionView>, r: RecordView) -> Seq<SessionView> {
    let k = first_index(h, |s: SessionView| s.name == r.session_name);
    if k < h.len() {
        let s = h[k as int];
        h.update(
            k as int,
            SessionView {
                name: s.name,
                id: s.id,
                attached: s.attached,
                window_count: s.window_count,
                created: s.created,
                windows: add_to_windows(s.windows, r.window_index, r.window_name, r.window_active, r.pane),
            },
        )
    } else {
        h.push(
            SessionView {
                name: r.session_name,
                id: r.session_id,
                attached: r.attached,
                window_count: r.window_count,
                created: r.created,
                windows: add_to_windows(Seq::empty(), r.window_index, r.window_name, r.window_active, r.pane),
            },
        )
    }
}

pub open spec fn add_line(h: Seq<SessionView>, line: Seq<char>) -> Seq<SessionView> {
    match record_of(line) {
        Some(r) => add_record(h, r),
        None => h,
    }
}

/// The hierarchy built from lines, taken in order.
pub open spec fn build(lines: Seq<Seq<char>>) -> Seq<SessionView>
    decreases lines.len(),
{
    if lines.len() == 0 {
        Seq::empty()
    } else {
        add_line(build(lines.drop_last()), lines.last())
    }
}

/// The hierarchy that a listing text describes.
pub open spec fn parse_model(t: Seq<char>) -> Seq<SessionView> {
    build(text_lines(t))
}


fn insert_pane(panes: &mut Vec<TmuxPane>, p: TmuxPane)
    ensures
        panes_view(final(panes)@) == add_pane(panes_view(old(panes)@), p@),
{
    let ghost f = |q: PaneView| q.index > p.index;
    let ghost pv = panes_view(panes@);
    let mut k: usize = 0;
    while k < panes.len() && panes[k].index <= p.index
        invariant
            k <= panes@.len(),
            pv == panes_view(panes@),
            forall|j: int| 0 <= j < k ==> (#[trigger] pv[j]).index <= p.index,
        decreases panes@.len() - k,
    {
        assert(pv[k as int] == panes@[k as int]@);
        k = k + 1;
    }
    proof {
        if k < panes@.len() {
            assert(pv[k as int] == panes@[k as int]@);
        }
        lemma_first_index(pv, f, k as int);
    }
    panes.insert(k, p);
    assert(panes_view(panes@) =~= pv.insert(k as int, p@));
}

fn insert_into_windows(
    windows: &mut Vec<TmuxWindow>,
    index: u32,
    name: String,
    active: bool,
    p: TmuxPane,
)
    ensures
        windows_view(final(windows)@) == add_to_windows(
            windows_view(old(windows)@),
            index,
            name@,
            active,
            p@,
        ),
{
    let ghost same = |w: WindowView| w.index == index;
    let ghost after = |w: WindowView| w.index > index;
    let ghost wv = windows_view(windows@);
    let mut k: usize = 0;
    while k < windows.len() && windows[k].index != index
        invariant
            k <= windows@.len(),
            wv == windows_view(windows@),
            forall|j: int| 0 <= j < k ==> (#[trigger] wv[j]).index != index,
        decreases windows@.len() - k,
    {
        assert(wv[k as int] == windows@[k as int]@);
        k = k + 1;
    }
    proof {
        if k < windows@.len() {
            assert(wv[k as int] == windows@[k as int]@);
        }
        lemma_first_index(wv, same, k as int);
    }
    if k < windows.len() {
        let mut w = windows.remove(k);
        insert_pane(&mut w.panes, p);
        windows.insert(k, w);
        assert(windows_view(windows@) =~= wv.update(
            k as int,
            WindowView {
                index: wv[k as int].index,
                name: wv[k as int].name,
                active: wv[k as int].active,
                panes: add_pane(wv[k as int].panes, p@),
            },
        ));
    } else {
        let mut j: usize = 0;
        while j < windows.len() && windows[j].index <= index
            invariant
                j <= windows@.len(),
                wv == windows_view(windows@),
                forall|i: int| 0 <= i < j ==> (#[trigger] wv[i]).index <= index,
            decreases windows@.len() - j,
        {
            assert(wv[j as int] == windows@[j as int]@);
            j = j + 1;
        }
        proof {
            if j < windows@.len() {
                assert(wv[j as int] == windows@[j as int]@);
            }
            lemma_first_index(wv, after, j as int);
        }
        let ghost pv = p@;
        let mut panes: Vec<TmuxPane> = Vec::new();
        panes.push(p);
        assert(panes_view(panes@) =~= seq![pv]);
        windows.insert(j, TmuxWindow { index, name, active, panes });
        assert(windows_view(windows@) =~= wv.insert(
            j as int,
            WindowView { index, name: name@, active, panes: seq![pv] },
        ));
    }
}

/// One line's fields, owned.
struct PaneRecord {
    session_name: String,
    session_id: String,
    attached: bool,
    window_count: u32,
    created: u64,
    window_index: u32,
    window_name: String,
    window_active: bool,
    pane: TmuxPane,
}

impl View for PaneRecord {
    type V = RecordView;

    closed spec fn view(&self) -> RecordView {
        RecordView {
            session_name: self.session_name@,
            session_id: self.session_id@,
            attached: self.attached,
            window_count: self.window_count,
            created: self.created,
            window_index: self.window_index,
            window_name: self.window_name@,
            window_active: self.window_active,
            pane: self.pane@,
        }
    }
}

fn insert_record(sessions: &mut Vec<TmuxSession>, r: PaneRecord)
    ensures
        sessions_view(final(sessions)@) == add_record(sessions_view(old(sessions)@), r@),
{
    let ghost rv = r@;
    let ghost f = |s: SessionView| s.name == rv.session_name;
    let ghost hv = sessions_view(sessions@);
    let mut k: usize = 0;
    while k < sessions.len() && sessions[k].name != r.session_name
        invariant
            k <= sessions@.len(),
            hv == sessions_view(sessions@),
            rv == r@,
            forall|j: int| 0 <= j < k ==> (#[trigger] hv[j]).name != rv.session_name,
        decreases sessions@.len() - k,
    {
        assert(hv[k as int] == sessions@[k as int]@);
        k = k + 1;
    }
    proof {
        if k < sessions@.len() {
            assert(hv[k as int] == sessions@[k as int]@);
        }
        lemma_first_index(hv, f, k as int);
    }
    let PaneRecord {
        session_name,
        session_id,
        attached,
        window_count,
        created,
        window_index,
        window_name,
        window_active,
        pane,
    } = r;
    if k < sessions.len() {
        let mut s = sessions.remove(k);
        insert_into_windows(&mut s.windows, window_index, window_name, window_active, pane);
        sessions.insert(k, s);
        assert(sessions_view(sessions@) =~= add_record(hv, rv));
    } else {
        let mut windows: Vec<TmuxWindow> = Vec::new();
        assert(windows_view(windows@) =~= Seq::<WindowView>::empty());
        insert_into_windows(&mut windows, window_index, window_name, window_active, pane);
        sessions.push(
            TmuxSession {
                name: session_name,
                id: session_id,
                attached,
                window_count,
                created,
                windows,
            },
        );
        assert(sessions_view(sessions@) =~= add_record(hv, rv));
    }
}


fn field(text: &str, from: usize, to: usize) -> (r: String)
    requires
        from <= to <= text@.len(),
    ensures
        r@ == text@.subrange(from as int, to as int),
{
    String::from_str(text.substring_char(from, to))
}

fn flag_in(cs: &Vec<char>, from: usize, to: usize) -> (r: bool)
    requires
        from <= to <= cs@.len(),
    ensures
        r == flag(cs@.subrange(from as int, to as int)),
{
    let ghost f = cs@.subrange(from as int, to as int);
    if to - from == 1 && cs[from] == '0' {
        assert(f =~= seq!['0']);
        false
    } else {
        assert(f.len() != 1 || f[0] != '0');
        assert(f != seq!['0']);
        true
    }
}

/// Adds the record that `cs[a..b]` holds, if it holds one.
fn add_line_in(text: &str, cs: &Vec<char>, a: usize, b: usize, sessions: &mut Vec<TmuxSession>)
    requires
        text@ == cs@,
        a <= b <= cs@.len(),
    ensures
        sessions_view(final(sessions)@) == add_line(
            sessions_view(old(sessions)@),
            cs@.subrange(a as int, b as int),
        ),
{
    let ghost line = cs@.subrange(a as int, b as int);
    let mut starts: Vec<usize> = Vec::new();
    let mut ends: Vec<usize> = Vec::new();
    let mut cur = a;
    let mut j = a;
    while j < b
        invariant
            a <= cur <= j <= b <= cs@.len(),
            starts@.len() == ends@.len(),
            split_on(cs@.subrange(a as int, j as int), '|').len() == ends@.len() + 1,
            forall|k: int| 0 <= k < ends@.len() ==> starts@[k] <= #[trigger] ends@[k] <= cur,
            forall|k: int|
                0 <= k < ends@.len() ==> split_on(cs@.subrange(a as int, j as int), '|')[k]
                    == cs@.subrange(starts@[k] as int, #[trigger] ends@[k] as int),
            split_on(cs@.subrange(a as int, j as int), '|').last() == cs@.subrange(
                cur as int,
                j as int,
            ),
        decreases b - j,
    {
        let ghost sp = cs@.subrange(a as int, j as int + 1);
        assert(sp.drop_last() =~= cs@.subrange(a as int, j as int));
        proof {
            lemma_split_nonempty(cs@.subrange(a as int, j as int), '|');
        }
        if cs[j] == '|' {
            starts.push(cur);
            ends.push(j);
            cur = j + 1;
            assert(cs@.subrange(cur as int, j as int + 1) =~= Seq::<char>::empty());
        } else {
            assert(cs@.subrange(cur as int, j as int + 1) =~= cs@.subrange(cur as int, j as int).push(cs@[j as int]));
        }
        j = j + 1;
    }
    proof {
        lemma_split_nonempty(line, '|');
        assert(cs@.subrange(a as int, j as int) == line);
    }
    starts.push(cur);
    ends.push(b);
    let ghost f = split_on(line, '|');
    assert(forall|k: int| 0 <= k < ends@.len() ==> f[k] == cs@.subrange(starts@[k] as int, #[trigger] ends@[k] as int));
    assert(forall|k: int| 0 <= k < ends@.len() ==> starts@[k] <= #[trigger] ends@[k] <= b);
    if ends.len() < 12 {
        return;
    }
    let session_name = field(text, starts[0], ends[0]);
    let session_id = field(text, starts[1], ends[1]);
    let attached = flag_in(cs, starts[2], ends[2]);
    let window_count = parse_number_or_zero(cs, starts[3], ends[3], 0xffff_ffff) as u32;
    let created = parse_number_or_zero(cs, starts[4], ends[4], 0xffff_ffff_ffff_ffff);
    let window_index = parse_number_or_zero(cs, starts[5], ends[5], 0xffff_ffff) as u32;
    let window_name = field(text, starts[6], ends[6]);
    let window_active = flag_in(cs, starts[7], ends[7]);
    let pane_index = parse_number_or_zero(cs, starts[8], ends[8], 0xffff_ffff) as u32;
    let current_command = field(text, starts[9], ends[9]);
    let current_path = field(text, starts[10], ends[10]);
    let last = trim_text(text.substring_char(starts[11], ends[11]));
    let last_chars = chars_of(last.as_str());
    let pane_active = flag_in(&last_chars, 0, last_chars.len());
    assert(last_chars@.subrange(0, last_chars@.len() as int) =~= last_chars@);
    let rec = PaneRecord {
        session_name,
        session_id,
        attached,
        window_count,
        created,
        window_index,
        window_name,
        window_active,
        pane: TmuxPane { index: pane_index, current_command, current_path, active: pane_active },
    };
    assert(rec@ == record_of(line)->Some_0);
    insert_record(sessions, rec);
}

/// Parses the listing text into the hierarchy: sessions in the order of
/// their first line, each session's windows and each window's panes sorted
/// by index. Lines with fewer than twelve fields are skipped.
pub fn parse_sessions(output: &str) -> (r: Vec<TmuxSession>)
    ensures
        sessions_view(r@) == parse_model(output@),
{
    let cs = chars_of(output);
    let n = cs.len();
    let mut sessions: Vec<TmuxSession> = Vec::new();
    let ghost mut pre: Seq<Seq<char>> = Seq::empty();
    let mut ls: usize = 0;
    let mut i: usize = 0;
    assert(cs@.subrange(0, 0) =~= Seq::<char>::empty());
    assert(sessions_view(sessions@) =~= Seq::<SessionView>::empty());
    assert(pre.push(cs@.subrange(0, 0)) =~= seq![Seq::<char>::empty()]);
    while i < n
        invariant
            ls <= i <= n == cs@.len(),
            cs@ == output@,
            split_on(cs@.subrange(0, i as int), '\n') == pre.push(cs@.subrange(ls as int, i as int)),
            sessions_view(sessions@) == build(stripped(pre)),
        decreases n - i,
    {
        let ghost sp = cs@.subrange(0, i as int + 1);
        assert(sp.drop_last() =~= cs@.subrange(0, i as int));
        if cs[i] == '\n' {
            let ghost raw = cs@.subrange(ls as int, i as int);
            let e = if i > ls && cs[i - 1] == '\r' { i - 1 } else { i };
            assert(cs@.subrange(ls as int, e as int) =~= strip_cr(raw));
            add_line_in(output, &cs, ls, e, &mut sessions);
            proof {
                let old_pre = pre;
                pre = pre.push(raw);
                assert(stripped(pre).drop_last() =~= stripped(old_pre));
                assert(sp =~= cs@.subrange(0, i as int + 1));
            }
            ls = i + 1;
            assert(cs@.subrange(ls as int, i as int + 1) =~= Seq::<char>::empty());
        } else {
            assert(cs@.subrange(ls as int, i as int + 1) =~= cs@.subrange(ls as int, i as int).push(cs@[i as int]));
        }
        i = i + 1;
    }
    assert(cs@.subrange(0, n as int) =~= cs@);
    assert(split_on(output@, '\n').drop_last() =~= pre);
    if ls < n {
        let ghost last = cs@.subrange(ls as int, n as int);
        add_line_in(output, &cs, ls, n, &mut sessions);
        assert(stripped(pre).push(last).drop_last() =~= stripped(pre));
    }
    sessions
}


pub proof fn lemma_first_index_props<A>(s: Seq<A>, f: spec_fn(A) -> bool)
    ensures
        first_index(s, f) <= s.len(),
        forall|k: int| 0 <= k < first_index(s, f) ==> !f(#[trigger] s[k]),
        first_index(s, f) < s.len() ==> f(s[first_index(s, f) as int]),
    decreases s.len(),
{
    if s.len() > 0 && !f(s[0]) {
        let t = s.drop_first();
        lemma_first_index_props(t, f);
        assert forall|k: int| 0 <= k < first_index(s, f) implies !f(#[trigger] s[k]) by {
            if k > 0 {
                assert(s[k] == t[k - 1]);
            }
        }
    }
}

/// Panes in ascending order of index.
pub open spec fn panes_sorted(ps: Seq<PaneView>) -> bool {
    forall|i: int, j: int| 0 <= i < j < ps.len() ==> ps[i].index <= ps[j].index
}

/// Windows in strictly ascending order of index.
pub open spec fn windows_sorted(ws: Seq<WindowView>) -> bool {
    &&& forall|i: int, j: int| 0 <= i < j < ws.len() ==> ws[i].index < ws[j].index
    &&& forall|i: int| 0 <= i < ws.len() ==> panes_sorted(#[trigger] ws[i].panes)
}

/// No two sessions share a name.
pub open spec fn names_unique(h: Seq<SessionView>) -> bool {
    forall|i: int, j: int| 0 <= i < j < h.len() ==> h[i].name != h[j].name
}

/// Every session's windows sorted by index, every window's panes too.
pub open spec fn all_sorted(h: Seq<SessionView>) -> bool {
    forall|i: int| 0 <= i < h.len() ==> windows_sorted(#[trigger] h[i].windows)
}

proof fn lemma_add_pane_sorted(ps: Seq<PaneView>, p: PaneView)
    requires
        panes_sorted(ps),
    ensures
        panes_sorted(add_pane(ps, p)),
{
    let f = |q: PaneView| q.index > p.index;
    lemma_first_index_props(ps, f);
    let k = first_index(ps, f) as int;
    let r = add_pane(ps, p);
    assert forall|i: int, j: int| 0 <= i < j < r.len() implies r[i].index <= r[j].index by {
        if j < k {
        } else if j == k {
            assert(!f(ps[i]));
        } else if i < k {
            assert(!f(ps[i]));
            assert(f(ps[k]));
            assert(ps[k].index <= ps[j - 1].index);
        } else if i == k {
            assert(f(ps[k]));
            assert(ps[k].index <= ps[j - 1].index);
        } else {
        }
    }
}

proof fn lemma_add_window_sorted(ws: Seq<WindowView>, index: u32, name: Seq<char>, active: bool, p: PaneView)
    requires
        windows_sorted(ws),
    ensures
        windows_sorted(add_to_windows(ws, index, name, active, p)),
{
    let same = |w: WindowView| w.index == index;
    let after = |w: WindowView| w.index > index;
    lemma_first_index_props(ws, same);
    let k = first_index(ws, same) as int;
    let r = add_to_windows(ws, index, name, active, p);
    if k < ws.len() {
        lemma_add_pane_sorted(ws[k].panes, p);
        assert forall|i: int| 0 <= i < r.len() implies panes_sorted(#[trigger] r[i].panes) by {
            if i != k {
                assert(r[i] == ws[i]);
            }
        }
    } else {
        lemma_first_index_props(ws, after);
        let m = first_index(ws, after) as int;
        assert(panes_sorted(seq![p]));
        assert forall|i: int, j: int| 0 <= i < j < r.len() implies r[i].index < r[j].index by {
            if j < m {
            } else if j == m {
                assert(!after(ws[i]));
                assert(!same(ws[i]));
            } else if i < m {
                assert(!after(ws[i]));
                assert(after(ws[m]));
                assert(ws[m].index <= ws[j - 1].index);
            } else if i == m {
                assert(after(ws[m]));
                assert(ws[m].index <= ws[j - 1].index);
            } else {
            }
        }
        assert forall|i: int| 0 <= i < r.len() implies panes_sorted(#[trigger] r[i].panes) by {
            if i < m {
                assert(r[i] == ws[i]);
            } else if i > m {
                assert(r[i] == ws[i - 1]);
            }
        }
    }
}

proof fn lemma_add_record_ordered(h: Seq<SessionView>, r: RecordView)
    requires
        names_unique(h),
        all_sorted(h),
    ensures
        names_unique(add_record(h, r)),
        all_sorted(add_record(h, r)),
{
    let f = |s: SessionView| s.name == r.session_name;
    lemma_first_index_props(h, f);
    let k = first_index(h, f) as int;
    let n = add_record(h, r);
    if k < h.len() {
        lemma_add_window_sorted(h[k].windows, r.window_index, r.window_name, r.window_active, r.pane);
        assert forall|i: int| 0 <= i < n.len() implies windows_sorted(#[trigger] n[i].windows) by {
            if i != k {
                assert(n[i] == h[i]);
            }
        }
    } else {
        lemma_add_window_sorted(Seq::empty(), r.window_index, r.window_name, r.window_active, r.pane);
        assert forall|i: int| 0 <= i < n.len() implies windows_sorted(#[trigger] n[i].windows) by {
            if i < h.len() {
                assert(n[i] == h[i]);
            }
        }
        assert forall|i: int, j: int| 0 <= i < j < n.len() implies n[i].name != n[j].name by {
            if j == h.len() {
                assert(!f(h[i]));
            }
        }
    }
}

proof fn lemma_build_ordered(lines: Seq<Seq<char>>)
    ensures
        names_unique(build(lines)),
        all_sorted(build(lines)),
    decreases lines.len(),
{
    if lines.len() > 0 {
        lemma_build_ordered(lines.drop_last());
        if let Some(r) = record_of(lines.last()) {
            lemma_add_record_ordered(build(lines.drop_last()), r);
        }
    }
}

/// Parsing one text twice gives one hierarchy: sessions, windows and panes
/// in the same order.
pub proof fn lemma_parse_deterministic(a: Seq<char>, b: Seq<char>)
    requires
        a == b,
    ensures
        parse_model(a) == parse_model(b),
{
}

/// No two sessions of a parsed hierarchy share a name, however many lines
/// name the same session.
pub proof fn lemma_parse_names_unique(t: Seq<char>)
    ensures
        names_unique(parse_model(t)),
{
    lemma_build_ordered(text_lines(t));
}

/// In a parsed hierarchy the windows of each session are sorted by index,
/// and the panes of each window too, whatever the order of the lines.
pub proof fn lemma_parse_sorted(t: Seq<char>)
    ensures
        all_sorted(parse_model(t)),
{
    lemma_build_ordered(text_lines(t));
}


/// Whether `p` occurs in `s`.
pub open spec fn occurs_in(s: Seq<char>, p: Seq<char>) -> bool {
    exists|i: int| 0 <= i && i + p.len() <= s.len() && #[trigger] s.subrange(i, i + p.len()) == p
}

fn occurs(s: &Vec<char>, p: &Vec<char>) -> (r: bool)
    ensures
        r == occurs_in(s@, p@),
{
    if p.len() > s.len() {
        return false;
    }
    if p.len() == 0 {
        assert(s@.subrange(0, 0 + p@.len() as int) =~= p@);
        return true;
    }
    let last = s.len() - p.len();
    let mut i: usize = 0;
    while i <= last
        invariant
            last + p@.len() == s@.len(),
            p@.len() > 0,
            i <= last + 1,
            s@.len() <= usize::MAX,
            forall|k: int| 0 <= k < i ==> #[trigger] s@.subrange(k, k + p@.len()) != p@,
        decreases last + 1 - i,
    {
        let mut j: usize = 0;
        while j < p.len() && s[i + j] == p[j]
            invariant
                i <= last,
                last + p@.len() == s@.len(),
                s@.len() <= usize::MAX,
                j <= p@.len(),
                forall|m: int| 0 <= m < j ==> s@[i + m] == p@[m],
            decreases p@.len() - j,
        {
            j = j + 1;
        }
        if j == p.len() {
            assert(s@.subrange(i as int, i + p@.len()) =~= p@);
            return true;
        }
        assert(s@.subrange(i as int, i + p@.len())[j as int] != p@[j as int]);
        i = i + 1;
    }
    proof {
        assert forall|k: int| 0 <= k && k + p@.len() <= s@.len() implies #[trigger] s@.subrange(k, k + p@.len()) != p@ by {
            assert(k < i);
        }
    }
    false
}

/// What a failed listing reports when tmux has no server running.
pub open spec fn no_server_text() -> Seq<char> {
    seq!['n', 'o', ' ', 's', 'e', 'r', 'v', 'e', 'r', ' ', 'r', 'u', 'n', 'n', 'i', 'n', 'g']
}

/// What a failed listing reports when the server has no sessions.
pub open spec fn no_sessions_text() -> Seq<char> {
    seq!['n', 'o', ' ', 's', 'e', 's', 's', 'i', 'o', 'n', 's']
}

/// Whether a failed listing only says that there is nothing to list.
pub open spec fn is_idle_report(stderr: Seq<char>) -> bool {
    occurs_in(stderr, no_server_text()) || occurs_in(stderr, no_sessions_text())
}

/// The message of a failed listing whose report is `stderr`.
pub open spec fn listing_error(stderr: Seq<char>) -> Seq<char> {
    seq!['t', 'm', 'u', 'x', ' ', 'e', 'r', 'r', 'o', 'r', ':', ' '] + trimmed(stderr)
}

/// The hierarchy from a finished listing command: parsed from `stdout` when
/// the command succeeded, empty when its error report only says that no
/// server or no session exists, and otherwise an error that quotes the
/// trimmed report.
pub fn interpret_listing(success: bool, stdout: &str, stderr: &str) -> (r: Result<Vec<TmuxSession>, String>)
    ensures
        success ==> r is Ok && sessions_view(r->Ok_0@) == parse_model(stdout@),
        !success && is_idle_report(stderr@) ==> r is Ok && r->Ok_0@.len() == 0,
        !success && !is_idle_report(stderr@) ==> r is Err && r->Err_0@ == listing_error(stderr@),
{
    if success {
        return Ok(parse_sessions(stdout));
    }
    let err = chars_of(stderr);
    let no_server = chars_of("no server running");
    let no_sessions = chars_of("no sessions");
    proof {
        reveal_strlit("no server running");
        reveal_strlit("no sessions");
        assert(no_server@ =~= no_server_text());
        assert(no_sessions@ =~= no_sessions_text());
    }
    if occurs(&err, &no_server) || occurs(&err, &no_sessions) {
        return Ok(Vec::new());
    }
    let mut msg = String::from_str("tmux error: ");
    proof { reveal_strlit("tmux error: "); }
    let t = trim_text(stderr);
    msg.append(t.as_str());
    assert(msg@ =~= listing_error(stderr@));
    Err(msg)
}

} // verus!
