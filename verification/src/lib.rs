//! The rules of a terminal tap game: the catalog of guns a player can buy, and
//! the command state machine that drives the two-pane user interface.

pub mod gun;
pub mod tui;
