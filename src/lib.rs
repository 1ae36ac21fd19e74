//! Core of a terminal front-end for tmux sessions: the session model built
//! from `list-panes` output, the tree cursor over it, and the modal key
//! handling that turns keystrokes into actions.

pub mod model;
pub mod text;
pub mod parse;
pub mod tree;
pub mod app;
