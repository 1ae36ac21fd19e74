//! The tree cursor: which node is selected and which nodes are open, kept by
//! `tui_tree_widget::TreeState` as paths of identifiers (a session's name,
//! then a window's index as text).

use vstd::prelude::*;
use tui_tree_widget::TreeState;

verus! {

#[verifier::external_type_specification]
#[verifier::external_body]
#[verifier::reject_recursive_types(Identifier)]
pub struct ExTreeState<Identifier>(TreeState<Identifier>);

/// The path of the selected node; empty when nothing is selected.
pub uninterp spec fn tree_selected(t: TreeState<String>) -> Seq<Seq<char>>;

/// The paths of the open nodes.
pub uninterp spec fn tree_opened(t: TreeState<String>) -> Set<Seq<Seq<char>>>;

/// A path of identifiers as character sequences.
pub open spec fn path_view(p: Seq<String>) -> Seq<Seq<char>> {
    p.map_values(|s: String| s@)
}

/// The parent of a path; the empty path stays empty.
pub open spec fn parent_of(p: Seq<Seq<char>>) -> Seq<Seq<char>> {
    if p.len() > 0 { p.drop_last() } else { p }
}

/// Relies on `TreeState::default`: nothing selected, nothing open.
#[verifier::external_body]
pub(crate) fn new_tree() -> (r: TreeState<String>)
    ensures
        tree_selected(r) == Seq::<Seq<char>>::empty(),
        tree_opened(r) == Set::<Seq<Seq<char>>>::empty(),
{
    TreeState::default()
}

/// Relies on `TreeState::selected`: the selected path, copied out.
#[verifier::external_body]
pub(crate) fn selected_path(t: &TreeState<String>) -> (r: Vec<String>)
    ensures
        path_view(r@) == tree_selected(*t),
{
    t.selected().to_vec()
}

/// Relies on `TreeState::select`: the given path becomes the selection.
#[verifier::external_body]
pub(crate) fn select_path(t: &mut TreeState<String>, p: Vec<String>)
    ensures
        tree_selected(*final(t)) == path_view(p@),
        tree_opened(*final(t)) == tree_opened(*old(t)),
{
    t.select(p);
}

/// Relies on `TreeState::open`: a non-empty path joins the open nodes.
#[verifier::external_body]
pub(crate) fn open_path(t: &mut TreeState<String>, p: Vec<String>)
    ensures
        tree_selected(*final(t)) == tree_selected(*old(t)),
        tree_opened(*final(t)) == if p@.len() == 0 {
            tree_opened(*old(t))
        } else {
            tree_opened(*old(t)).insert(path_view(p@))
        },
{
    t.open(p);
}

/// Relies on `TreeState::key_down`: moves the selection among the nodes shown
/// by the last render; the open nodes stay.
#[verifier::external_body]
pub(crate) fn move_down(t: &mut TreeState<String>)
    ensures
        tree_opened(*final(t)) == tree_opened(*old(t)),
{
    t.key_down();
}

/// Relies on `TreeState::key_up`: moves the selection among the nodes shown
/// by the last render; the open nodes stay.
#[verifier::external_body]
pub(crate) fn move_up(t: &mut TreeState<String>)
    ensures
        tree_opened(*final(t)) == tree_opened(*old(t)),
{
    t.key_up();
}

/// Relies on `TreeState::select_first`: selects the first node shown by the
/// last render; the open nodes stay.
#[verifier::external_body]
pub(crate) fn jump_first(t: &mut TreeState<String>)
    ensures
        tree_opened(*final(t)) == tree_opened(*old(t)),
{
    t.select_first();
}

/// Relies on `TreeState::select_last`: selects the last node shown by the
/// last render; the open nodes stay.
#[verifier::external_body]
pub(crate) fn jump_last(t: &mut TreeState<String>)
    ensures
        tree_opened(*final(t)) == tree_opened(*old(t)),
{
    t.select_last();
}

/// Relies on `TreeState::key_right`: opens the selected node, if any.
#[verifier::external_body]
pub(crate) fn expand(t: &mut TreeState<String>)
    ensures
        tree_selected(*final(t)) == tree_selected(*old(t)),
        tree_opened(*final(t)) == if tree_selected(*old(t)).len() == 0 {
            tree_opened(*old(t))
        } else {
            tree_opened(*old(t)).insert(tree_selected(*old(t)))
        },
{
    t.key_right();
}

/// Relies on `TreeState::key_left`: closes the selected node where it is
/// open, and otherwise selects its parent.
#[verifier::external_body]
pub(crate) fn collapse(t: &mut TreeState<String>)
    ensures
        tree_opened(*old(t)).contains(tree_selected(*old(t))) ==> {
            &&& tree_opened(*final(t)) == tree_opened(*old(t)).remove(tree_selected(*old(t)))
            &&& tree_selected(*final(t)) == tree_selected(*old(t))
        },
        !tree_opened(*old(t)).contains(tree_selected(*old(t))) ==> {
            &&& tree_opened(*final(t)) == tree_opened(*old(t))
            &&& tree_selected(*final(t)) == parent_of(tree_selected(*old(t)))
        },
{
    t.key_left();
}

} // verus!
