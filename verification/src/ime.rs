//! Text that an input method writes, as edits of a text field.

use vstd::prelude::*;

verus! {

/// Whether the soft keyboard is shown.
#[derive(Clone, Copy, Debug, PartialEq, Eq, Structural)]
pub enum KeyboardStatus {
    Unset,
    Hide,
    Show,
}

/// An event of the input method.
#[derive(Clone, Debug, PartialEq, Eq)]
pub enum ImeEvent {
    /// Text to insert.
    TextInput { text: String },
    /// Text that is still being composed, in place of what lies between `start`
    /// and `end`.
    PreviewText { text: String, start: i32, end: i32 },
    /// The composed text stays.
    FinishPreview,
    /// The enter key.
    Enter,
    /// Deletes so much text before the caret.
    Backspace(i32),
    /// The soft keyboard came or went.
    Status(KeyboardStatus),
}

/// What an event of the input method holds.
pub enum ImeEventView {
    TextInput { text: Seq<char> },
    PreviewText { text: Seq<char>, start: i32, end: i32 },
    FinishPreview,
    Enter,
    Backspace(i32),
    Status(KeyboardStatus),
}

impl View for ImeEvent {
    type V = ImeEventView;

    open spec fn view(&self) -> ImeEventView {
        match *self {
            ImeEvent::TextInput { text } => ImeEventView::TextInput { text: text@ },
            ImeEvent::PreviewText { text, start, end } => ImeEventView::PreviewText {
                text: text@,
                start,
                end,
            },
            ImeEvent::FinishPreview => ImeEventView::FinishPreview,
            ImeEvent::Enter => ImeEventView::Enter,
            ImeEvent::Backspace(len) => ImeEventView::Backspace(len),
            ImeEvent::Status(status) => ImeEventView::Status(status),
        }
    }
}

/// A stretch of a text field.
#[derive(Clone, Copy, Debug, PartialEq, Eq, Structural)]
pub struct TextRange {
    pub start: usize,
    pub end: usize,
}

/// What is selected in a text field. The caret is at the start of a reversed
/// selection, else at its end.
#[derive(Clone, Copy, Debug, PartialEq, Eq, Structural)]
pub struct TextSelection {
    pub range: TextRange,
    pub reversed: bool,
}

/// One edit of a text field. Without a range it applies to the selection.
#[derive(Clone, Debug, PartialEq, Eq)]
pub enum TextEdit {
    Replace { range: Option<TextRange>, text: String },
    /// Replaces and marks the new text as still being composed.
    ReplaceAndMark { range: Option<TextRange>, text: String },
    /// Ends the marking.
    Unmark,
}

/// What an edit does.
pub enum TextEditView {
    Replace { range: Option<TextRange>, text: Seq<char> },
    ReplaceAndMark { range: Option<TextRange>, text: Seq<char> },
    Unmark,
}

impl View for TextEdit {
    type V = TextEditView;

    open spec fn view(&self) -> TextEditView {
        match *self {
            TextEdit::Replace { range, text } => TextEditView::Replace { range, text: text@ },
            TextEdit::ReplaceAndMark { range, text } => TextEditView::ReplaceAndMark {
                range,
                text: text@,
            },
            TextEdit::Unmark => TextEditView::Unmark,
        }
    }
}

/// What a list of edits does.
pub open spec fn edit_views(edits: Seq<TextEdit>) -> Seq<TextEditView> {
    edits.map_values(|edit: TextEdit| edit@)
}

/// The stretch that a preview replaces: none where its ends make no sense.
pub open spec fn preview_range(start: i32, end: i32) -> Option<TextRange> {
    if 0 <= start <= end {
        Some(TextRange { start: start as usize, end: end as usize })
    } else {
        None
    }
}

/// The stretch that a backspace deletes: the selection where there is one, else
/// so much before the caret.
pub open spec fn backspace_range(selection: TextSelection, len: int) -> TextRange {
    if selection.range.start != selection.range.end {
        selection.range
    } else {
        TextRange {
            start: if selection.range.end >= len {
                (selection.range.end - len) as usize
            } else {
                0
            },
            end: selection.range.end,
        }
    }
}

/// The edits that an event of the input method asks for. `selection` is what is
/// selected in the text field.
pub open spec fn edits_of(event: ImeEventView, selection: Option<TextSelection>) -> Seq<
    TextEditView,
> {
    match event {
        ImeEventView::TextInput { text } => seq![
            TextEditView::Replace { range: None, text },
            TextEditView::Unmark,
        ],
        ImeEventView::PreviewText { text, start, end } => seq![
            TextEditView::ReplaceAndMark { range: preview_range(start, end), text },
        ],
        ImeEventView::FinishPreview => seq![TextEditView::Unmark],
        ImeEventView::Enter => seq![
            TextEditView::Replace { range: None, text: seq!['\n'] },
            TextEditView::Unmark,
        ],
        ImeEventView::Backspace(len) => if len <= 0 {
            seq![]
        } else {
            seq![
                TextEditView::Replace {
                    range: match selection {
                        Some(selection) => Some(backspace_range(selection, len as int)),
                        None => None,
                    },
                    text: seq![],
                },
            ]
        },
        ImeEventView::Status(status) => if status is Hide {
            seq![TextEditView::Unmark]
        } else {
            seq![]
        },
    }
}

/// Whether the edits for an event depend on what is selected.
pub open spec fn depends_on_selection(event: ImeEventView) -> bool {
    event matches ImeEventView::Backspace(len) && len > 0
}

/// Tells whether the edits for an event depend on what is selected.
pub fn needs_selection(event: &ImeEvent) -> (r: bool)
    ensures
        r == depends_on_selection(event@),
{
    match event {
        ImeEvent::Backspace(len) => *len > 0,
        _ => false,
    }
}

/// The edits that an event of the input method asks for.
pub fn ime_edits(event: ImeEvent, selection: Option<TextSelection>) -> (r: Vec<TextEdit>)
    ensures
        edit_views(r@) == edits_of(event@, selection),
{
    let ghost asked = event@;
    let mut edits: Vec<TextEdit> = Vec::new();
    match event {
        ImeEvent::TextInput { text } => {
            edits.push(TextEdit::Replace { range: None, text });
            edits.push(TextEdit::Unmark);
        },
        ImeEvent::PreviewText { text, start, end } => {
            let range = if start >= 0 && end >= start {
                Some(TextRange { start: start as usize, end: end as usize })
            } else {
                None
            };
            edits.push(TextEdit::ReplaceAndMark { range, text });
        },
        ImeEvent::FinishPreview => {
            edits.push(TextEdit::Unmark);
        },
        ImeEvent::Enter => {
            proof {
                reveal_strlit("\n");
                assert("\n"@ =~= seq!['\n']);
            }
            edits.push(TextEdit::Replace { range: None, text: "\n".to_owned() });
            edits.push(TextEdit::Unmark);
        },
        ImeEvent::Backspace(len) => {
            if len > 0 {
                let range = match selection {
                    Some(selection) => Some(
                        if selection.range.start != selection.range.end {
                            selection.range
                        } else {
                            let caret: usize = if selection.reversed {
                                selection.range.start
                            } else {
                                selection.range.end
                            };
                            TextRange { start: caret.saturating_sub(len as usize), end: caret }
                        },
                    ),
                    None => None,
                };
                let text = String::new();
                assert(text@ =~= seq![]);
                edits.push(TextEdit::Replace { range, text });
            }
        },
        ImeEvent::Status(status) => {
            if status == KeyboardStatus::Hide {
                edits.push(TextEdit::Unmark);
            }
        },
    }
    assert(edit_views(edits@) =~= edits_of(asked, selection));
    edits
}

/// A backspace without a selection deletes what lies just before the caret: as
/// much as it asks for, or all there is.
pub proof fn law_backspace_deletes_before_caret(selection: TextSelection, len: i32)
    requires
        selection.range.start == selection.range.end,
        len > 0,
    ensures
        ({
            let range = backspace_range(selection, len as int);
            &&& range.end == selection.range.end
            &&& range.start <= range.end
            &&& range.end - range.start == if selection.range.end >= len {
                len as int
            } else {
                selection.range.end as int
            }
        }),
{
}

/// A backspace with a selection deletes the selection and nothing else, however
/// much it asks for.
pub proof fn law_backspace_deletes_selection(selection: TextSelection, len: i32)
    requires
        selection.range.start != selection.range.end,
        len > 0,
    ensures
        edits_of(ImeEventView::Backspace(len), Some(selection)) == seq![
            TextEditView::Replace { range: Some(selection.range), text: seq![] },
        ],
{
}

/// The edits for an event depend on the selection only where that is said.
pub proof fn law_selection_matters_only_where_said(
    event: ImeEventView,
    a: Option<TextSelection>,
    b: Option<TextSelection>,
)
    requires
        !depends_on_selection(event),
    ensures
        edits_of(event, a) == edits_of(event, b),
{
}

/// Only a preview leaves text marked: whatever else writes text ends by
/// unmarking it, and so do the end of a preview and the soft keyboard going
/// away. A backspace marks nothing.
pub proof fn law_only_previews_leave_marks(event: ImeEventView, selection: Option<TextSelection>)
    ensures
        ({
            let edits = edits_of(event, selection);
            &&& event is TextInput || event is Enter || event is FinishPreview
                ==> edits.last() is Unmark
            &&& event == ImeEventView::Status(KeyboardStatus::Hide) ==> edits.last() is Unmark
            &&& !(event is PreviewText) ==> forall|i: int|
                0 <= i < edits.len() ==> !(#[trigger] edits[i] is ReplaceAndMark)
        }),
{
}

/// Text that is typed takes the place of the selection, as it is, and stays; so does a
/// line break for the enter key.
pub proof fn law_typed_text_replaces_selection(
    text: Seq<char>,
    selection: Option<TextSelection>,
)
    ensures
        edits_of(ImeEventView::TextInput { text }, selection) == seq![
            TextEditView::Replace { range: None, text },
            TextEditView::Unmark,
        ],
        edits_of(ImeEventView::Enter, selection) == seq![
            TextEditView::Replace { range: None, text: seq!['\n'] },
            TextEditView::Unmark,
        ],
{
}

/// A preview is written and marked: in place of what lies between its ends, where they
/// are those of a stretch, and else of the selection.
pub proof fn law_preview_is_marked_in_place(
    text: Seq<char>,
    start: i32,
    end: i32,
    selection: Option<TextSelection>,
)
    ensures
        ({
            let edits = edits_of(ImeEventView::PreviewText { text, start, end }, selection);
            &&& edits.len() == 1
            &&& edits[0] matches TextEditView::ReplaceAndMark { range, text: written } && {
                &&& written == text
                &&& range is Some <==> start >= 0 && end >= start
                &&& range is Some ==> range->0.start == start && range->0.end == end
            }
        }),
{
}

/// A backspace takes text away and writes none: the selection where there is one, and
/// else as much as it asks for just before the caret, or all there is. Without a
/// selection to go by it leaves the place to the text field. One that asks for nothing
/// does nothing.
pub proof fn law_backspace_takes_text_away(len: i32, selection: Option<TextSelection>)
    ensures
        ({
            let edits = edits_of(ImeEventView::Backspace(len), selection);
            &&& len <= 0 ==> edits.len() == 0
            &&& len > 0 ==> edits.len() == 1 && (edits[0] matches TextEditView::Replace {
                range,
                text,
            } && {
                &&& text.len() == 0
                &&& range is Some <==> selection is Some
                &&& selection is Some && selection->0.range.start != selection->0.range.end
                    ==> range == Some(selection->0.range)
                &&& selection is Some && selection->0.range.start == selection->0.range.end ==> {
                    &&& range->0.end == selection->0.range.start
                    &&& range->0.start <= range->0.end
                    &&& range->0.end - range->0.start == len || (range->0.start == 0
                        && range->0.end < len)
                }
            })
        }),
{
}

/// The end of a preview ends the marking, and so does the soft keyboard going away. The
/// keyboard coming, or a state of it that is not set, edits nothing.
pub proof fn law_marking_ends(selection: Option<TextSelection>)
    ensures
        edits_of(ImeEventView::FinishPreview, selection) == seq![TextEditView::Unmark],
        edits_of(ImeEventView::Status(KeyboardStatus::Hide), selection) == seq![
            TextEditView::Unmark,
        ],
        edits_of(ImeEventView::Status(KeyboardStatus::Show), selection).len() == 0,
        edits_of(ImeEventView::Status(KeyboardStatus::Unset), selection).len() == 0,
{
}

/// Only a backspace that deletes something asks for the selection, and it does so for
/// a reason: there are selections that it treats differently.
pub proof fn law_only_backspace_asks_for_selection(event: ImeEventView)
    ensures
        depends_on_selection(event) <==> event is Backspace && event->Backspace_0 > 0,
        depends_on_selection(event) ==> edits_of(event, None) != edits_of(
            event,
            Some(TextSelection { range: TextRange { start: 0, end: 1 }, reversed: false }),
        ),
{
    if depends_on_selection(event) {
        let selection = TextSelection { range: TextRange { start: 0, end: 1 }, reversed: false };
        assert(edits_of(event, None)[0]->Replace_range is None);
        assert(edits_of(event, Some(selection))[0]->Replace_range is Some);
    }
}

} // verus!
