//! The texts of the status bar: what the left side shows (the last
//! failure, the current path, or a placeholder for a new file) and the
//! cursor position on the right, rendered one-based as `line:column`.

use vstd::prelude::*;

use crate::decimal::{decimal_rep, decimal_string};
use crate::document::DocumentView;
use crate::editor::{Editor, EditorView};
use crate::error::error_text;

verus! {

/// What the left side of the status bar shows: the last failure if one is
/// recorded (a closed dialog as well as an I/O error), else the current
/// path, else the new-file placeholder.
pub open spec fn status_view(s: EditorView) -> Seq<char> {
    match s.error {
        Some(e) => error_text(e),
        None => match s.path {
            Some(p) => p,
            None => "New file"@,
        },
    }
}

/// The cursor position display: one-based line and column, separated by a
/// colon.
pub open spec fn position_view(d: DocumentView) -> Seq<char> {
    decimal_rep(d.cursor_line + 1) + ":"@ + decimal_rep(d.cursor_column + 1)
}

impl Editor {
    /// The status text for the left side of the status bar.
    pub fn status_text(&self) -> (r: String)
        ensures
            r@ == status_view(self@),
    {
        match &self.error {
            Some(error) => error.describe(),
            None => match &self.path {
                Some(path) => path.clone(),
                None => String::from_str("New file"),
            },
        }
    }

    /// The `line:column` cursor display, one-based.
    pub fn position_text(&self) -> (r: String)
        requires
            self.content.cursor_line < usize::MAX,
            self.content.cursor_column < usize::MAX,
        ensures
            r@ == position_view(self.content@),
    {
        let (line, column) = self.content.cursor_position();
        let mut s = decimal_string((line + 1) as u64);
        s.append(":");
        let rest = decimal_string((column + 1) as u64);
        s.append(rest.as_str());
        s
    }
}

} // verus!
