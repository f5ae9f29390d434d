//! The editor's state machine. The state is the optional file path, the
//! document, and the last error. Events either mutate the state in place
//! or schedule one piece of file work, described by a [`Task`], which the
//! surrounding program performs; the outcome comes back as another event.

use vstd::prelude::*;

use crate::document::{Document, DocumentView};
use crate::error::Error;

verus! {

/// Mathematical model of the editor state.
#[verifier::ext_equal]
pub ghost struct EditorView {
    pub path: Option<Seq<char>>,
    pub content: DocumentView,
    pub error: Option<Error>,
}

impl EditorView {
    /// The state a fresh editor starts in: no path, empty document, no error.
    pub open spec fn initial() -> EditorView {
        EditorView { path: None, content: DocumentView::empty(), error: None }
    }
}

/// Mathematical model of an event.
#[verifier::ext_equal]
pub ghost enum MessageView {
    Edit(DocumentView),
    New,
    Open,
    Save,
    FileOpened(Result<(Seq<char>, Seq<char>), Error>),
    FileSaved(Result<Seq<char>, Error>),
}

/// Mathematical model of the scheduled file work.
#[verifier::ext_equal]
pub ghost enum TaskView {
    Idle,
    Load(Seq<char>),
    PickAndLoad,
    Write(Seq<char>, Seq<char>),
    PickSaveAndWrite(Seq<char>),
}

/// An event the editor reacts to. `Edit` carries the document as the
/// editing widget left it after applying the user's action; `FileOpened`
/// and `FileSaved` deliver the outcome of earlier file work.
#[derive(Debug)]
pub enum Message {
    Edit(Document),
    New,
    Open,
    Save,
    FileOpened(Result<(String, String), Error>),
    FileSaved(Result<String, Error>),
}

/// File work the surrounding program must perform after an update:
/// nothing; load a known file; show the open dialog and load the choice;
/// write text to a known path; or ask for a path first and then write.
#[derive(Clone, Debug, PartialEq)]
pub enum Task {
    Idle,
    Load(String),
    PickAndLoad,
    Write(String, String),
    PickSaveAndWrite(String),
}

/// The editor state: current file path (`None` for an unsaved new
/// document), the document, and the last failure, if any.
#[derive(Clone, Debug)]
pub struct Editor {
    pub path: Option<String>,
    pub content: Document,
    pub error: Option<Error>,
}

pub open spec fn path_view(p: Option<String>) -> Option<Seq<char>> {
    match p {
        Some(s) => Some(s@),
        None => None,
    }
}

pub open spec fn opened_view(r: Result<(String, String), Error>) -> Result<
    (Seq<char>, Seq<char>),
    Error,
> {
    match r {
        Ok((p, t)) => Ok((p@, t@)),
        Err(e) => Err(e),
    }
}

pub open spec fn saved_view(r: Result<String, Error>) -> Result<Seq<char>, Error> {
    match r {
        Ok(p) => Ok(p@),
        Err(e) => Err(e),
    }
}

impl View for Editor {
    type V = EditorView;

    open spec fn view(&self) -> EditorView {
        EditorView { path: path_view(self.path), content: self.content@, error: self.error }
    }
}

impl View for Message {
    type V = MessageView;

    open spec fn view(&self) -> MessageView {
        match self {
            Message::Edit(d) => MessageView::Edit(d@),
            Message::New => MessageView::New,
            Message::Open => MessageView::Open,
            Message::Save => MessageView::Save,
            Message::FileOpened(r) => MessageView::FileOpened(opened_view(*r)),
            Message::FileSaved(r) => MessageView::FileSaved(saved_view(*r)),
        }
    }
}

impl View for Task {
    type V = TaskView;

    open spec fn view(&self) -> TaskView {
        match self {
            Task::Idle => TaskView::Idle,
            Task::Load(p) => TaskView::Load(p@),
            Task::PickAndLoad => TaskView::PickAndLoad,
            Task::Write(p, t) => TaskView::Write(p@, t@),
            Task::PickSaveAndWrite(t) => TaskView::PickSaveAndWrite(t@),
        }
    }
}

/// The transition function: what an event does to the state, and which
/// file work it schedules.
///
/// - `Edit` stores the document the widget produced and clears the error.
/// - `New` forgets the path and empties the document.
/// - `Open` schedules the open dialog followed by a load.
/// - `Save` schedules a direct write when a path is known, and a save
///   dialog followed by the write when none is.
/// - `FileOpened(Ok)` records the path and replaces the document with the
///   loaded text; `FileSaved(Ok)` records the path.
/// - A failed outcome only records the error.
pub open spec fn step(s: EditorView, m: MessageView) -> (EditorView, TaskView) {
    match m {
        MessageView::Edit(d) => (
            EditorView { path: s.path, content: d, error: None },
            TaskView::Idle,
        ),
        MessageView::New => (
            EditorView { path: None, content: DocumentView::empty(), error: s.error },
            TaskView::Idle,
        ),
        MessageView::Open => (s, TaskView::PickAndLoad),
        MessageView::Save => match s.path {
            Some(p) => (s, TaskView::Write(p, s.content.text)),
            None => (s, TaskView::PickSaveAndWrite(s.content.text)),
        },
        MessageView::FileOpened(r) => match r {
            Ok((p, t)) => (
                EditorView { path: Some(p), content: DocumentView::loaded(t), error: s.error },
                TaskView::Idle,
            ),
            Err(e) => (
                EditorView { path: s.path, content: s.content, error: Some(e) },
                TaskView::Idle,
            ),
        },
        MessageView::FileSaved(r) => match r {
            Ok(p) => (
                EditorView { path: Some(p), content: s.content, error: s.error },
                TaskView::Idle,
            ),
            Err(e) => (
                EditorView { path: s.path, content: s.content, error: Some(e) },
                TaskView::Idle,
            ),
        },
    }
}

impl Editor {
    /// A fresh editor, together with the first piece of file work: loading
    /// the given default file.
    pub fn new(default_path: String) -> (r: (Editor, Task))
        ensures
            r.0@ == EditorView::initial(),
            r.1@ == TaskView::Load(default_path@),
    {
        let e = Editor { path: None, content: Document::new(), error: None };
        proof {
            assert(e@ =~= EditorView::initial());
        }
        (e, Task::Load(default_path))
    }

    /// The window title.
    pub fn title(&self) -> (r: String)
        ensures
            r@ == "Bonkitor"@,
    {
        String::from_str("Bonkitor")
    }

    /// React to one event: mutate the state as [`step`] says and return
    /// the file work to perform.
    pub fn update(&mut self, message: Message) -> (t: Task)
        ensures
            final(self)@ == step(old(self)@, message@).0,
            t@ == step(old(self)@, message@).1,
    {
        let ghost m = message@;
        match message {
            Message::Edit(document) => {
                self.content = document;
                self.error = None;
                proof {
                    assert(self@ =~= step(old(self)@, m).0);
                }
                Task::Idle
            },
            Message::New => {
                self.path = None;
                self.content = Document::new();
                proof {
                    assert(self@ =~= step(old(self)@, m).0);
                }
                Task::Idle
            },
            Message::Open => Task::PickAndLoad,
            Message::Save => {
                let text = self.content.text.clone();
                match &self.path {
                    Some(path) => Task::Write(path.clone(), text),
                    None => Task::PickSaveAndWrite(text),
                }
            },
            Message::FileOpened(Ok((path, contents))) => {
                self.path = Some(path);
                self.content = Document::with(contents);
                proof {
                    assert(self@ =~= step(old(self)@, m).0);
                }
                Task::Idle
            },
            Message::FileOpened(Err(error)) => {
                self.error = Some(error);
                proof {
                    assert(self@ =~= step(old(self)@, m).0);
                }
                Task::Idle
            },
            Message::FileSaved(Ok(path)) => {
                self.path = Some(path);
                proof {
                    assert(self@ =~= step(old(self)@, m).0);
                }
                Task::Idle
            },
            Message::FileSaved(Err(error)) => {
                self.error = Some(error);
                proof {
                    assert(self@ =~= step(old(self)@, m).0);
                }
                Task::Idle
            },
        }
    }
}

/// Creating a new document always empties the buffer and forgets the
/// path, whatever the editor held before.
pub proof fn lemma_new_resets(s: EditorView)
    ensures
        step(s, MessageView::New).0.path is None,
        step(s, MessageView::New).0.content =~= DocumentView::empty(),
{
}

/// Saving without a path first asks for one: the scheduled work is a save
/// dialog followed by the write, and the state does not change.
pub proof fn lemma_save_without_path_asks(s: EditorView)
    requires
        s.path is None,
    ensures
        step(s, MessageView::Save).1 =~= TaskView::PickSaveAndWrite(s.content.text),
        step(s, MessageView::Save).0 =~= s,
{
}

/// Saving with a known path writes the document to it directly, with no
/// dialog, and the state does not change.
pub proof fn lemma_save_with_path_writes(s: EditorView, p: Seq<char>)
    requires
        s.path == Some(p),
    ensures
        step(s, MessageView::Save).1 =~= TaskView::Write(p, s.content.text),
        step(s, MessageView::Save).0 =~= s,
{
}

/// A loaded file arrives in the document verbatim: afterwards the buffer
/// holds exactly the delivered characters and the path points at the file.
pub proof fn lemma_load_round_trip(s: EditorView, path: Seq<char>, text: Seq<char>)
    ensures
        step(s, MessageView::FileOpened(Ok((path, text)))).0.content.text == text,
        step(s, MessageView::FileOpened(Ok((path, text)))).0.path == Some(path),
{
}

/// A cancelled dialog leaves the state unchanged except for the error
/// field, which records the cancellation; no file work follows.
pub proof fn lemma_cancel_changes_only_error(s: EditorView, m: MessageView)
    requires
        m == MessageView::FileOpened(Err(Error::DialogClosed)) || m == MessageView::FileSaved(
            Err(Error::DialogClosed),
        ),
    ensures
        step(s, m).0.path == s.path,
        step(s, m).0.content == s.content,
        step(s, m).0.error == Some(Error::DialogClosed),
        step(s, m).1 =~= TaskView::Idle,
{
}

} // verus!
