use gpui_ohos::ime::{
    ime_edits, needs_selection, ImeEvent, KeyboardStatus, TextEdit, TextRange, TextSelection,
};

fn selection(start: usize, end: usize, reversed: bool) -> Option<TextSelection> {
    Some(TextSelection { range: TextRange { start, end }, reversed })
}

fn replaced(range: Option<TextRange>, text: &str) -> TextEdit {
    TextEdit::Replace { range, text: text.to_owned() }
}

#[test]
fn text_input_replaces_and_unmarks() {
    let event = ImeEvent::TextInput { text: "hé".to_owned() };
    assert!(!needs_selection(&event));
    assert_eq!(ime_edits(event, None), vec![replaced(None, "hé"), TextEdit::Unmark]);
}

#[test]
fn preview_marks_text() {
    let event = ImeEvent::PreviewText { text: "ni".to_owned(), start: 2, end: 5 };
    assert_eq!(
        ime_edits(event, None),
        vec![TextEdit::ReplaceAndMark {
            range: Some(TextRange { start: 2, end: 5 }),
            text: "ni".to_owned(),
        }]
    );
}

#[test]
fn preview_without_sense_has_no_range() {
    for (start, end) in [(-1, 3), (4, 3)] {
        let event = ImeEvent::PreviewText { text: "x".to_owned(), start, end };
        assert_eq!(
            ime_edits(event, None),
            vec![TextEdit::ReplaceAndMark { range: None, text: "x".to_owned() }]
        );
    }
}

#[test]
fn enter_is_a_line_break() {
    assert_eq!(ime_edits(ImeEvent::Enter, None), vec![replaced(None, "\n"), TextEdit::Unmark]);
}

#[test]
fn end_of_preview_and_hiding_unmark() {
    assert_eq!(ime_edits(ImeEvent::FinishPreview, None), vec![TextEdit::Unmark]);
    assert_eq!(
        ime_edits(ImeEvent::Status(KeyboardStatus::Hide), None),
        vec![TextEdit::Unmark]
    );
    assert_eq!(ime_edits(ImeEvent::Status(KeyboardStatus::Show), None), vec![]);
    assert_eq!(ime_edits(ImeEvent::Status(KeyboardStatus::Unset), None), vec![]);
}

#[test]
fn backspace_deletes_before_the_caret() {
    assert!(needs_selection(&ImeEvent::Backspace(2)));
    for reversed in [false, true] {
        assert_eq!(
            ime_edits(ImeEvent::Backspace(2), selection(5, 5, reversed)),
            vec![replaced(Some(TextRange { start: 3, end: 5 }), "")]
        );
    }
    assert_eq!(
        ime_edits(ImeEvent::Backspace(9), selection(5, 5, false)),
        vec![replaced(Some(TextRange { start: 0, end: 5 }), "")]
    );
}

#[test]
fn backspace_deletes_the_selection() {
    assert_eq!(
        ime_edits(ImeEvent::Backspace(1), selection(2, 7, true)),
        vec![replaced(Some(TextRange { start: 2, end: 7 }), "")]
    );
    assert_eq!(ime_edits(ImeEvent::Backspace(1), None), vec![replaced(None, "")]);
}

#[test]
fn empty_backspace_does_nothing() {
    assert!(!needs_selection(&ImeEvent::Backspace(0)));
    assert_eq!(ime_edits(ImeEvent::Backspace(0), selection(2, 7, true)), vec![]);
    assert_eq!(ime_edits(ImeEvent::Backspace(-3), selection(2, 7, true)), vec![]);
}
