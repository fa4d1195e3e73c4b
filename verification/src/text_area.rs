use vstd::prelude::*;
use tui_textarea::CursorMove;
use tui_textarea::Key as AreaKey;
use tui_textarea::TextArea;
use crate::event::Input;
use crate::event::InputKey;

verus! {

/// An editing area of one or more lines of text with a cursor.
///
/// Holds a `tui_textarea::TextArea`. What it holds is known only through
/// `area_lines`, `area_cursor` and `area_selecting`, and through what the functions
/// below say of them.
#[verifier::external_body]
pub struct EditArea {
    area: TextArea<'static>,
}

/// The key of an input as the editing area takes it; it is carried through unread.
#[verifier::external_type_specification]
#[verifier::external_body]
pub struct ExAreaKey(tui_textarea::Key);

/// The lines of text that an editing area holds, from the top.
pub uninterp spec fn area_lines(area: EditArea) -> Seq<Seq<char>>;

/// Where the cursor of an editing area stands: the line, and the character in it.
pub uninterp spec fn area_cursor(area: EditArea) -> (int, int);

/// Whether a selection is under way in an editing area.
pub uninterp spec fn area_selecting(area: EditArea) -> bool;

/// An editing area holds at least one line, and its cursor stands in one of its lines.
pub open spec fn area_valid(area: EditArea) -> bool {
    let (row, col) = area_cursor(area);
    &&& area_lines(area).len() >= 1
    &&& 0 <= row < area_lines(area).len()
    &&& 0 <= col
}

/// Whether a text can be inserted as one piece: it holds no line break and does not
/// end in a carriage return.
pub open spec fn one_piece(text: Seq<char>) -> bool {
    &&& forall|i: int| 0 <= i < text.len() ==> text[i] != '\n'
    &&& text.len() > 0 ==> text.last() != '\r'
}

/// An empty editing area.
///
/// Calls `TextArea::default`, which makes an area of one empty line with the cursor
/// at its start and no selection.
#[verifier::external_body]
pub(crate) fn area_new() -> (area: EditArea)
    ensures
        area_lines(area) == seq![Seq::<char>::empty()],
        area_cursor(area) == (0int, 0int),
        !area_selecting(area),
{
    EditArea { area: TextArea::default() }
}

/// Inserts `text` at the cursor.
///
/// Calls `TextArea::insert_str`. With no selection under way and the cursor at or
/// before the end of its line, a text of one piece goes into the cursor's line at the
/// cursor, which then stands behind it; the other lines and the absence of a selection
/// stay. Nothing is claimed of the other cases but that the area stays valid.
#[verifier::external_body]
pub(crate) fn area_insert_str(area: &mut EditArea, text: &str)
    ensures
        area_valid(*final(area)),
        area_valid(*old(area)) && !area_selecting(*old(area)) && one_piece(text@) && area_cursor(
            *old(area),
        ).1 <= area_lines(*old(area))[area_cursor(*old(area)).0].len() ==> {
            let (row, col) = area_cursor(*old(area));
            let line = area_lines(*old(area))[row];
            &&& area_lines(*final(area)) == area_lines(*old(area)).update(
                row,
                line.take(col) + text@ + line.skip(col),
            )
            &&& area_cursor(*final(area)) == (row, col + text@.len())
            &&& !area_selecting(*final(area))
        },
{
    area.area.insert_str(text);
}

/// Moves the cursor to the head of its line.
///
/// Calls `TextArea::move_cursor` with `CursorMove::Head`: the text stays, the cursor
/// keeps its line and goes to the first character, and a selection under way stays
/// under way.
#[verifier::external_body]
pub(crate) fn area_move_head(area: &mut EditArea)
    ensures
        area_lines(*final(area)) == area_lines(*old(area)),
        area_cursor(*final(area)) == (area_cursor(*old(area)).0, 0int),
        area_selecting(*final(area)) == area_selecting(*old(area)),
        area_valid(*old(area)) ==> area_valid(*final(area)),
{
    area.area.move_cursor(CursorMove::Head);
}

/// Deletes from the cursor to the end of its line.
///
/// Calls `TextArea::delete_line_by_end`. With no selection under way and the cursor
/// before the end of its line, the rest of the line goes; with the cursor at the end
/// of the last line, nothing changes. Nothing is claimed of the other cases (a
/// selection is deleted instead; at the end of another line the next line is joined)
/// but that the area stays valid.
#[verifier::external_body]
pub(crate) fn area_delete_line_by_end(area: &mut EditArea) -> (deleted: bool)
    ensures
        area_valid(*final(area)),
        area_valid(*old(area)) && !area_selecting(*old(area)) ==> {
            let (row, col) = area_cursor(*old(area));
            let line = area_lines(*old(area))[row];
            &&& col < line.len() ==> {
                &&& area_lines(*final(area)) == area_lines(*old(area)).update(row, line.take(col))
                &&& area_cursor(*final(area)) == (row, col)
                &&& !area_selecting(*final(area))
            }
            &&& col == line.len() && row == area_lines(*old(area)).len() - 1 ==> {
                &&& area_lines(*final(area)) == area_lines(*old(area))
                &&& area_cursor(*final(area)) == (row, col)
                &&& !area_selecting(*final(area))
            }
        },
{
    area.area.delete_line_by_end()
}

/// The key of an editing area that a key of the library stands for.
///
/// Builds a `tui_textarea::Key`, variant for variant.
#[verifier::external_body]
pub(crate) fn area_key(key: InputKey) -> tui_textarea::Key {
    match key {
        InputKey::Char(c) => AreaKey::Char(c), InputKey::F(n) => AreaKey::F(n),
        InputKey::Backspace => AreaKey::Backspace, InputKey::Enter => AreaKey::Enter,
        InputKey::Left => AreaKey::Left, InputKey::Right => AreaKey::Right,
        InputKey::Up => AreaKey::Up, InputKey::Down => AreaKey::Down,
        InputKey::Tab => AreaKey::Tab, InputKey::Delete => AreaKey::Delete,
        InputKey::Home => AreaKey::Home, InputKey::End => AreaKey::End,
        InputKey::PageUp => AreaKey::PageUp, InputKey::PageDown => AreaKey::PageDown,
        InputKey::Esc => AreaKey::Esc, InputKey::Null => AreaKey::Null,
        InputKey::MouseScrollDown => AreaKey::MouseScrollDown,
        InputKey::MouseScrollUp => AreaKey::MouseScrollUp,
    }
}

/// Lets the editing area handle one input, with its own key bindings.
///
/// Calls `TextArea::input`, which says whether the text was modified. What it does
/// to the text takes the whole table of key bindings to say; claimed is only that
/// the area stays valid.
#[verifier::external_body]
pub(crate) fn area_input(
    area: &mut EditArea,
    key: tui_textarea::Key,
    ctrl: bool,
    alt: bool,
    shift: bool,
) -> (modified: bool)
    ensures
        area_valid(*final(area)),
{
    area.area.input(tui_textarea::Input { key, ctrl, alt, shift })
}

/// The first line of an editing area.
///
/// Calls `TextArea::lines` and copies the first of them.
#[verifier::external_body]
pub(crate) fn area_first_line(area: &EditArea) -> (line: String)
    requires
        area_lines(*area).len() >= 1,
    ensures
        line@ == area_lines(*area)[0],
{
    area.area.lines()[0].clone()
}

/// The lines of an editing area, from the top.
///
/// Calls `TextArea::lines` and copies them.
#[verifier::external_body]
pub(crate) fn area_copy_lines(area: &EditArea) -> (lines: Vec<String>)
    ensures
        crate::record::texts(lines@) == area_lines(*area),
{
    area.area.lines().to_vec()
}

/// Where the cursor of an editing area stands.
///
/// Calls `TextArea::cursor`, which gives the line and the character in it, both
/// counted from zero.
#[verifier::external_body]
pub(crate) fn area_cursor_at(area: &EditArea) -> (at: (usize, usize))
    ensures
        area_cursor(*area) == (at.0 as int, at.1 as int),
{
    area.area.cursor()
}

/// Whether `pattern` stands in `text` at position `at`.
pub open spec fn matches_at(text: Seq<char>, pattern: Seq<char>, at: int) -> bool {
    0 <= at && at + pattern.len() <= text.len() && text.subrange(at, at + pattern.len()) == pattern
}

/// `text` without the first occurrence of `pattern`, if there is one.
pub open spec fn strip_first(text: Seq<char>, pattern: Seq<char>) -> Seq<char> {
    if exists|at: int| matches_at(text, pattern, at) {
        let at = choose|at: int|
            matches_at(text, pattern, at) && forall|before: int|
                0 <= before < at ==> !matches_at(text, pattern, before);
        text.take(at) + text.skip(at + pattern.len())
    } else {
        text
    }
}

/// `text` without the first occurrence of `pattern`.
///
/// Calls `str::replacen` with an empty replacement and a count of one, which
/// replaces the first match of the pattern and leaves a text without a match as it is.
#[verifier::external_body]
pub(crate) fn remove_first(text: &str, pattern: &str) -> (out: String)
    ensures
        out@ == strip_first(text@, pattern@),
{
    text.replacen(pattern, "", 1)
}

/// Lets the editing area handle one input of the library.
pub fn area_handle(area: &mut EditArea, input: Input) -> (modified: bool)
    ensures
        area_valid(*final(area)),
{
    let key = area_key(input.key);
    area_input(area, key, input.ctrl, input.alt, input.shift)
}

} // verus!
