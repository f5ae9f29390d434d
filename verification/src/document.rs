//! The in-memory document: the text being edited plus the cursor position.
//! Buffer mechanics (applying keystrokes) belong to the editing widget
//! outside this crate; after each edit the widget's resulting text and
//! cursor are handed back here as a fresh `Document`.

use vstd::prelude::*;

verus! {

/// Mathematical model of a document: its characters and the cursor's
/// zero-based line and column.
#[verifier::ext_equal]
pub ghost struct DocumentView {
    pub text: Seq<char>,
    pub cursor_line: nat,
    pub cursor_column: nat,
}

impl DocumentView {
    /// The empty document with the cursor at the origin.
    pub open spec fn empty() -> DocumentView {
        DocumentView { text: Seq::<char>::empty(), cursor_line: 0, cursor_column: 0 }
    }

    /// A document freshly loaded from `text`, cursor at the origin.
    pub open spec fn loaded(text: Seq<char>) -> DocumentView {
        DocumentView { text, cursor_line: 0, cursor_column: 0 }
    }
}

/// The editable text buffer with its cursor position.
#[derive(Clone, Debug, PartialEq, Eq)]
pub struct Document {
    pub text: String,
    pub cursor_line: usize,
    pub cursor_column: usize,
}

impl View for Document {
    type V = DocumentView;

    open spec fn view(&self) -> DocumentView {
        DocumentView {
            text: self.text@,
            cursor_line: self.cursor_line as nat,
            cursor_column: self.cursor_column as nat,
        }
    }
}

impl Document {
    /// A new, empty document.
    pub fn new() -> (r: Document)
        ensures
            r@ =~= DocumentView::empty(),
    {
        Document { text: String::new(), cursor_line: 0, cursor_column: 0 }
    }

    /// A document holding `text` verbatim, cursor at the origin.
    pub fn with(text: String) -> (r: Document)
        ensures
            r@ =~= DocumentView::loaded(text@),
    {
        Document { text, cursor_line: 0, cursor_column: 0 }
    }

    /// The cursor's zero-based line and column.
    pub fn cursor_position(&self) -> (r: (usize, usize))
        ensures
            r.0 == self.cursor_line,
            r.1 == self.cursor_column,
    {
        (self.cursor_line, self.cursor_column)
    }
}

} // verus!
