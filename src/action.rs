//! The commands that components exchange.

use vstd::prelude::*;

verus! {

/// What the menu previews for a table.
#[derive(Clone, Copy, Debug, PartialEq, Eq, Structural)]
pub enum MenuPreview {
    Rows,
    Columns,
    Constraints,
    Indexes,
    Policies,
}

/// A format that result data can be exported in.
#[derive(Clone, Copy, Debug, PartialEq, Eq, Structural)]
pub enum ExportFormat {
    CSV,
}

/// A typed command: the only vocabulary in which components communicate.
#[derive(Clone, Debug, PartialEq, Eq)]
pub enum Action {
    Tick,
    Render,
    Resize(u16, u16),
    Resume,
    Quit,
    Refresh,
    Error(String),
    Help,
    SubmitEditorQuery,
    SubmitEditorQueryBypassParser,
    /// Query lines, whether execution was confirmed, whether to bypass the parser.
    Query(Vec<String>, bool, bool),
    /// Preview kind, schema, table.
    MenuPreview(MenuPreview, String, String),
    QueryToEditor(Vec<String>),
    ClearHistory,
    AbortQuery,
    FocusMenu,
    FocusEditor,
    FocusHistory,
    FocusData,
    FocusFavorites,
    CycleFocusForwards,
    CycleFocusBackwards,
    LoadMenu,
    CopyData(String),
    RequestExportData(i64),
    ExportData(ExportFormat),
    ExportDataFinished,
    RequestSaveFavorite(Vec<String>),
    SaveFavorite(String, Vec<String>),
    DeleteFavorite(String),
}

} // verus!
