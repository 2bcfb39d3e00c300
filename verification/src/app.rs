//! Front-end state that a caller drives.
//!
//! An interactive front end keeps two small pieces of state beside the timer:
//! which mode its key handling is in, and which cell of a grid is selected.
//! Both are plain data with no hidden behaviour, so they are verified here.

use vstd::prelude::*;

verus! {

/// The key-handling mode of an interactive front end: ordinary navigation,
/// or typing a command.
#[derive(Clone, Copy, Debug, PartialEq, Eq, Structural)]
pub enum AppMode {
    NORMAL,
    COMMAND,
}

/// The selection state of a grid: a selected row and column, or nothing
/// selected yet.
#[derive(Clone, Debug)]
pub struct AppState {
    selected_row: Option<usize>,
    selected_column: Option<usize>,
}

impl AppState {
    /// The selected cell, as the model sees it: a cell counts as selected
    /// only when both a row and a column are recorded.
    pub closed spec fn selection(&self) -> Option<(usize, usize)> {
        match (self.selected_row, self.selected_column) {
            (Some(row), Some(col)) => Some((row, col)),
            _ => None,
        }
    }

    /// The selected cell as `(row, column)`, or `None` when nothing is
    /// selected.
    pub fn selected(&self) -> (r: Option<(usize, usize)>)
        ensures
            r == self.selection(),
    {
        match (self.selected_row, self.selected_column) {
            (Some(row), Some(col)) => Some((row, col)),
            _ => None,
        }
    }

    /// Select the cell `(row, column)`.
    pub fn select(&mut self, cell: (usize, usize))
        ensures
            final(self).selection() == Some(cell),
    {
        self.selected_column = Some(cell.1);
        self.selected_row = Some(cell.0);
    }
}

impl Default for AppState {
    /// A fresh selection state: nothing selected.
    fn default() -> (s: AppState)
        ensures
            s.selection() is None,
    {
        AppState { selected_row: None, selected_column: None }
    }
}

} // verus!
