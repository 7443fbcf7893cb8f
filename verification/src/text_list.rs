//! The list widget of `tui_additions`: its rows, its cursor, and the calls
//! that move the cursor. None of the contracts in this file is proved; each
//! states what the widget's source shows.

use vstd::prelude::*;
use tui_additions::widgets::TextList;

verus! {

#[verifier::external_type_specification]
#[verifier::external_body]
pub struct ExTextList(TextList);

/// The rows of the widget, top to bottom: its field `items`.
pub uninterp spec fn text_list_rows(list: TextList) -> Seq<Seq<char>>;

/// The index of the row under the cursor: the widget's field `selected`.
pub uninterp spec fn text_list_cursor(list: TextList) -> usize;

/// The height the widget was told it has to draw in, if it was told one: its
/// field `height`.
pub uninterp spec fn text_list_height(list: TextList) -> Option<u16>;

/// The texts of `rows`.
pub open spec fn texts_of(rows: Seq<String>) -> Seq<Seq<char>> {
    Seq::new(rows.len(), |i: int| rows[i]@)
}

/// Whether a widget of this height can bring its cursor into view. It can
/// where the height is known and leaves room for a row between the borders.
/// Where it cannot, a call that moved the cursor reports a failure.
pub open spec fn can_scroll(height: Option<u16>) -> bool {
    height matches Some(rows) && rows > 2
}

/// `TextList::default`: a widget with no rows, the cursor on row 0 and no
/// height yet.
#[verifier::external_body]
pub(crate) fn new_list() -> (list: TextList)
    ensures
        text_list_rows(list) == Seq::<Seq<char>>::empty(),
        text_list_cursor(list) == 0,
        text_list_height(list) is None,
{
    TextList::default()
}

/// `TextList::non_ascii_replace`: sets the character drawn in place of one
/// that is not ASCII. Rows, cursor and height stay.
#[verifier::external_body]
pub(crate) fn replace_non_ascii(list: TextList, replacement: char) -> (changed: TextList)
    ensures
        text_list_rows(changed) == text_list_rows(list),
        text_list_cursor(changed) == text_list_cursor(list),
        text_list_height(changed) == text_list_height(list),
{
    list.non_ascii_replace(replacement)
}

/// `TextList::set_items`, with strings: the rows become the given texts; the
/// cursor and the height stay. Where a height is known the widget then brings
/// the cursor into view, and the result tells whether it could.
#[verifier::external_body]
pub(crate) fn set_rows(list: &mut TextList, rows: &Vec<String>) -> (ok: bool)
    requires
        text_list_cursor(*old(list)) + 0xffff <= usize::MAX,
    ensures
        text_list_rows(*final(list)) == texts_of(rows@),
        text_list_cursor(*final(list)) == text_list_cursor(*old(list)),
        text_list_height(*final(list)) == text_list_height(*old(list)),
        ok == (text_list_height(*old(list)) is None || can_scroll(text_list_height(*old(list)))),
{
    list.set_items(rows.as_slice()).is_ok()
}

/// `TextList::up`: the cursor goes one row up, or stays on row 0. The result
/// is false only where the cursor moved and the widget could not bring it
/// into view.
#[verifier::external_body]
pub(crate) fn move_up(list: &mut TextList) -> (ok: bool)
    requires
        text_list_cursor(*old(list)) + 0xffff <= usize::MAX,
    ensures
        text_list_rows(*final(list)) == text_list_rows(*old(list)),
        text_list_height(*final(list)) == text_list_height(*old(list)),
        text_list_cursor(*final(list)) == if text_list_cursor(*old(list)) == 0 {
            0
        } else {
            text_list_cursor(*old(list)) - 1
        },
        ok == (text_list_cursor(*old(list)) == 0 || can_scroll(text_list_height(*old(list)))),
{
    list.up().is_ok()
}

/// `TextList::down`: the cursor goes one row down where a row follows it, and
/// stays otherwise. The result is false only where the cursor moved and the
/// widget could not bring it into view.
#[verifier::external_body]
pub(crate) fn move_down(list: &mut TextList) -> (ok: bool)
    requires
        text_list_cursor(*old(list)) + 0xffff <= usize::MAX,
    ensures
        text_list_rows(*final(list)) == text_list_rows(*old(list)),
        text_list_height(*final(list)) == text_list_height(*old(list)),
        text_list_cursor(*final(list)) == if text_list_cursor(*old(list)) + 1 < text_list_rows(
            *old(list),
        ).len() {
            text_list_cursor(*old(list)) + 1
        } else {
            text_list_cursor(*old(list)) as int
        },
        ok == (text_list_cursor(*final(list)) == text_list_cursor(*old(list)) || can_scroll(
            text_list_height(*old(list)),
        )),
{
    list.down().is_ok()
}

/// `TextList::first`: the cursor goes to row 0. The result is false only
/// where the cursor moved and the widget could not bring it into view.
#[verifier::external_body]
pub(crate) fn move_first(list: &mut TextList) -> (ok: bool)
    ensures
        text_list_rows(*final(list)) == text_list_rows(*old(list)),
        text_list_height(*final(list)) == text_list_height(*old(list)),
        text_list_cursor(*final(list)) == 0,
        ok == (text_list_cursor(*old(list)) == 0 || can_scroll(text_list_height(*old(list)))),
{
    list.first().is_ok()
}

/// `TextList::last`, on a widget that has rows: the cursor goes to the last
/// row. The result is false only where the cursor moved and the widget could
/// not bring it into view.
#[verifier::external_body]
pub(crate) fn move_last(list: &mut TextList) -> (ok: bool)
    requires
        text_list_rows(*old(list)).len() > 0,
        text_list_rows(*old(list)).len() + 0xffff <= usize::MAX,
    ensures
        text_list_rows(*final(list)) == text_list_rows(*old(list)),
        text_list_height(*final(list)) == text_list_height(*old(list)),
        text_list_cursor(*final(list)) == text_list_rows(*old(list)).len() - 1,
        ok == (text_list_cursor(*old(list)) == text_list_rows(*old(list)).len() - 1 || can_scroll(
            text_list_height(*old(list)),
        )),
{
    list.last().is_ok()
}

/// The widget's field `selected`: the index of the row under the cursor.
#[verifier::external_body]
pub(crate) fn cursor_of(list: &TextList) -> (cursor: usize)
    ensures
        cursor == text_list_cursor(*list),
{
    list.selected
}

/// The widget's field `items`: a copy of its rows.
#[verifier::external_body]
pub(crate) fn rows_of(list: &TextList) -> (rows: Vec<String>)
    ensures
        texts_of(rows@) == text_list_rows(*list),
{
    list.items.clone()
}

/// The derived `Clone` of the widget: the copy has the same rows, cursor and
/// height.
pub assume_specification[ <TextList as Clone>::clone ](list: &TextList) -> (copy: TextList)
    ensures
        text_list_rows(copy) == text_list_rows(*list),
        text_list_cursor(copy) == text_list_cursor(*list),
        text_list_height(copy) == text_list_height(*list),
;

} // verus!
