use bonkitor::document::Document;
use bonkitor::editor::{Editor, Message, Task};
use bonkitor::error::{Error, IoErrorKind};

fn fresh() -> Editor {
    let (editor, task) = Editor::new(String::from("/tmp/start.txt"));
    assert_eq!(task, Task::Load(String::from("/tmp/start.txt")));
    editor
}

#[test]
fn new_editor_is_empty() {
    let editor = fresh();
    assert!(editor.path.is_none());
    assert_eq!(editor.content.text, "");
    assert_eq!(editor.content.cursor_line, 0);
    assert_eq!(editor.content.cursor_column, 0);
    assert!(editor.error.is_none());
}

#[test]
fn new_message_resets_content_and_path() {
    let mut editor = fresh();
    editor.path = Some(String::from("/tmp/a.txt"));
    editor.content = Document::with(String::from("hello"));
    let task = editor.update(Message::New);
    assert_eq!(task, Task::Idle);
    assert!(editor.path.is_none());
    assert_eq!(editor.content.text, "");
}

#[test]
fn edit_replaces_document_and_clears_error() {
    let mut editor = fresh();
    editor.error = Some(Error::DialogClosed);
    let doc = Document {
        text: String::from("abc"),
        cursor_line: 0,
        cursor_column: 3,
    };
    let task = editor.update(Message::Edit(doc));
    assert_eq!(task, Task::Idle);
    assert_eq!(editor.content.text, "abc");
    assert_eq!(editor.content.cursor_column, 3);
    assert!(editor.error.is_none());
}

#[test]
fn save_without_path_asks_for_one() {
    let mut editor = fresh();
    editor.content = Document::with(String::from("draft"));
    let task = editor.update(Message::Save);
    assert_eq!(task, Task::PickSaveAndWrite(String::from("draft")));
}

#[test]
fn save_with_path_writes_directly() {
    let mut editor = fresh();
    editor.path = Some(String::from("/tmp/a.txt"));
    editor.content = Document::with(String::from("draft"));
    let task = editor.update(Message::Save);
    assert_eq!(
        task,
        Task::Write(String::from("/tmp/a.txt"), String::from("draft"))
    );
}

#[test]
fn open_schedules_pick_and_load() {
    let mut editor = fresh();
    let task = editor.update(Message::Open);
    assert_eq!(task, Task::PickAndLoad);
}

#[test]
fn opened_file_lands_in_document_verbatim() {
    let mut editor = fresh();
    let text = String::from("line one\nline two\n");
    let task = editor.update(Message::FileOpened(Ok((
        String::from("/tmp/b.txt"),
        text.clone(),
    ))));
    assert_eq!(task, Task::Idle);
    assert_eq!(editor.path.as_deref(), Some("/tmp/b.txt"));
    assert_eq!(editor.content.text, text);
    assert_eq!(editor.content.cursor_line, 0);
    assert_eq!(editor.content.cursor_column, 0);
}

#[test]
fn saved_file_records_path() {
    let mut editor = fresh();
    let task = editor.update(Message::FileSaved(Ok(String::from("/tmp/c.txt"))));
    assert_eq!(task, Task::Idle);
    assert_eq!(editor.path.as_deref(), Some("/tmp/c.txt"));
}

#[test]
fn cancelled_open_changes_only_error() {
    let mut editor = fresh();
    editor.path = Some(String::from("/tmp/kept.txt"));
    editor.content = Document::with(String::from("kept"));
    let task = editor.update(Message::FileOpened(Err(Error::DialogClosed)));
    assert_eq!(task, Task::Idle);
    assert_eq!(editor.path.as_deref(), Some("/tmp/kept.txt"));
    assert_eq!(editor.content.text, "kept");
    assert_eq!(editor.error, Some(Error::DialogClosed));
}

#[test]
fn cancelled_save_changes_only_error() {
    let mut editor = fresh();
    editor.content = Document::with(String::from("kept"));
    let task = editor.update(Message::FileSaved(Err(Error::DialogClosed)));
    assert_eq!(task, Task::Idle);
    assert!(editor.path.is_none());
    assert_eq!(editor.content.text, "kept");
    assert_eq!(editor.error, Some(Error::DialogClosed));
}

#[test]
fn failed_open_records_io_error() {
    let mut editor = fresh();
    let task = editor.update(Message::FileOpened(Err(Error::IOFailed(
        IoErrorKind::NotFound,
    ))));
    assert_eq!(task, Task::Idle);
    assert_eq!(editor.error, Some(Error::IOFailed(IoErrorKind::NotFound)));
}

#[test]
fn failed_save_records_io_error() {
    let mut editor = fresh();
    let task = editor.update(Message::FileSaved(Err(Error::IOFailed(
        IoErrorKind::PermissionDenied,
    ))));
    assert_eq!(task, Task::Idle);
    assert_eq!(
        editor.error,
        Some(Error::IOFailed(IoErrorKind::PermissionDenied))
    );
}

#[test]
fn title_is_fixed() {
    let editor = fresh();
    assert_eq!(editor.title(), "Bonkitor");
}
