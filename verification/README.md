# gpui-ohos

OpenHarmony platform support for GPUI, with the decisions verified by Verus.

`src/` is a library of plain values. It decides what an event of the system means
for a window and for GPUI:

- `window` plans the steps for an event and keeps a window's state; `geometry`
  computes the safe area and how much of a window the soft keyboard hides;
- `keyboard`, `touch`, `mouse` and `ime` turn raw input into the input events and
  text edits of `input`;
- `renderer`, `display` and `platform` decide about surfaces, the display and the
  run loop;
- `screen_capture` and `credentials` plan the calls of the native services and
  check and decode what comes back;
- `demo` is the demonstration application;
- `text` holds the few text helpers that the others share.

Each public function states what it returns, and the `law_` functions state what
holds across calls. Coordinates are floating point in the system and in GPUI; the
library carries them as bit patterns and never computes with them.

`app/` joins the library to GPUI and to the OpenHarmony bindings. What draws, shapes
text and runs tasks is handed in through `app/backend.rs`.

## Cursor grab

`set_cursor_grab(real_window_id, grab)` is handed on from `openharmony-ability`. It
takes the real window ID, not the logical one (such as `0` for the main window).
Cursor locking requires API 22 or newer and the
`ohos.permission.LOCK_WINDOW_CURSOR` permission.
