//! What the model guarantees for every state and every input: first of
//! bytes written one by one, then of strings.

use crate::screen::{
    blank_row, glyph, printable, rendered, rendered_bytes, Screen, ScreenChar, BLANK, H, NEWLINE,
    PLACEHOLDER, W,
};
use vstd::prelude::*;

verus! {

/// A line break keeps the grid's shape: rows 1 to `H - 1` are then rows 0 to
/// `H - 2`, the bottom row is blank in the current attribute, and the cursor
/// is at column 0.
pub proof fn lemma_new_line(s: Screen)
    requires
        s.wf(),
    ensures
        s.new_line().wf(),
        forall|row: int| 1 <= row < H ==> s.new_line().rows[row - 1] == #[trigger] s.rows[row],
        s.new_line().bottom() == blank_row(s.color),
        forall|col: int| 0 <= col < W ==> #[trigger] s.new_line().bottom()[col] == glyph(BLANK, s.color),
        s.new_line().column == 0,
        s.new_line().color == s.color,
{
}

/// A line break drops the top row for good: two grids that differ in the top
/// row only are the same after it.
pub proof fn lemma_new_line_drops_top_row(s: Screen, t: Screen)
    requires
        s.wf(),
        t.wf(),
        s.color == t.color,
        forall|row: int| 1 <= row < H ==> s.rows[row] == t.rows[row],
    ensures
        s.new_line() == t.new_line(),
{
    assert(s.new_line().rows =~= t.new_line().rows);
}

/// Writing a byte keeps the grid's shape, the cursor within the row and the
/// attribute. A byte other than the newline is stored at a column below `W`,
/// with the current attribute, and the cursor is then one past it.
pub proof fn lemma_write_byte(s: Screen, byte: u8)
    requires
        s.wf(),
    ensures
        s.write_byte(byte).wf(),
        s.write_byte(byte).color == s.color,
        byte != NEWLINE ==> 0 <= s.target_column() < W,
        byte != NEWLINE ==> s.write_byte(byte).column == s.target_column() + 1,
        byte != NEWLINE ==> s.write_byte(byte).bottom()[s.target_column()] == glyph(byte, s.color),
{
    lemma_new_line(s);
}

/// Only the bottom row is written to: a row above it changes by a line break
/// alone, which gives it the row below.
pub proof fn lemma_upper_rows(s: Screen, byte: u8, row: int)
    requires
        s.wf(),
        0 <= row < H - 1,
    ensures
        s.breaks_line(byte) ==> s.write_byte(byte).rows[row] == s.rows[row + 1],
        !s.breaks_line(byte) ==> s.write_byte(byte).rows[row] == s.rows[row],
{
    lemma_new_line(s);
}

/// Writing bytes and then one more is writing the bytes and then that one.
pub proof fn lemma_write_bytes_push(s: Screen, bytes: Seq<u8>, byte: u8)
    ensures
        s.write_bytes(bytes.push(byte)) == s.write_bytes(bytes).write_byte(byte),
        s.write_bytes(bytes).breaks_line(byte) ==> s.line_breaks(bytes.push(byte)) == s.line_breaks(
            bytes,
        ) + 1,
        !s.write_bytes(bytes).breaks_line(byte) ==> s.line_breaks(bytes.push(byte))
            == s.line_breaks(bytes),
{
    assert(bytes.push(byte).drop_last() =~= bytes);
}

/// Writing two runs of bytes one after the other is writing them as one
/// run.
pub proof fn lemma_write_bytes_concat(s: Screen, first: Seq<u8>, second: Seq<u8>)
    ensures
        s.write_bytes(first + second) == s.write_bytes(first).write_bytes(second),
        s.line_breaks(first + second) == s.line_breaks(first) + s.write_bytes(first).line_breaks(second),
    decreases second.len(),
{
    if second.len() > 0 {
        lemma_write_bytes_concat(s, first, second.drop_last());
        assert((first + second).drop_last() =~= first + second.drop_last());
    }
}

/// Whatever bytes are written, the grid keeps its shape, the cursor stays
/// within the row and the attribute stays the same.
pub proof fn lemma_write_bytes(s: Screen, bytes: Seq<u8>)
    requires
        s.wf(),
    ensures
        s.write_bytes(bytes).wf(),
        s.write_bytes(bytes).color == s.color,
    decreases bytes.len(),
{
    if bytes.len() > 0 {
        lemma_write_bytes(s, bytes.drop_last());
        lemma_write_byte(s.write_bytes(bytes.drop_last()), bytes.last());
    }
}

/// After any sequence of writes, the cursor is at most at `W`, and the next
/// character is stored at a column from 0 to `W - 1` of the bottom row.
pub proof fn lemma_cursor_in_bounds(s: Screen, bytes: Seq<u8>, byte: u8)
    requires
        s.wf(),
        byte != NEWLINE,
    ensures
        s.write_bytes(bytes).column <= W,
        0 <= s.write_bytes(bytes).target_column() < W,
        s.write_bytes(bytes).write_byte(byte).bottom()[s.write_bytes(bytes).target_column()]
            == glyph(byte, s.color),
{
    lemma_write_bytes(s, bytes);
    lemma_write_byte(s.write_bytes(bytes), byte);
}

/// Bytes without a newline that fit in what is left of the bottom row lie
/// there from the cursor on, in order and in the current attribute; nothing
/// else changes and no line breaks.
pub proof fn lemma_write_within_row(s: Screen, bytes: Seq<u8>)
    requires
        s.wf(),
        s.column + bytes.len() <= W,
        forall|i: int| 0 <= i < bytes.len() ==> bytes[i] != NEWLINE,
    ensures
        s.write_bytes(bytes).wf(),
        s.write_bytes(bytes).column == s.column + bytes.len(),
        s.write_bytes(bytes).color == s.color,
        s.line_breaks(bytes) == 0,
        forall|i: int|
            0 <= i < bytes.len() ==> #[trigger] s.write_bytes(bytes).bottom()[s.column + i]
                == glyph(bytes[i], s.color),
        forall|col: int|
            0 <= col < W && !(s.column <= col < s.column + bytes.len())
                ==> #[trigger] s.write_bytes(bytes).bottom()[col] == s.bottom()[col],
        forall|row: int|
            0 <= row < H - 1 ==> #[trigger] s.write_bytes(bytes).rows[row] == s.rows[row],
    decreases bytes.len(),
{
    if bytes.len() > 0 {
        let front = bytes.drop_last();
        lemma_write_within_row(s, front);
        lemma_write_byte(s.write_bytes(front), bytes.last());
    }
}

/// One byte more than a row, without a newline and written from column 0,
/// breaks the line once: the first `W` bytes fill the row above the bottom
/// row, the last one stands at column 0 of the bottom row, which is blank
/// after it, and every other row has moved up by one.
pub proof fn lemma_write_one_past_row(s: Screen, bytes: Seq<u8>)
    requires
        s.wf(),
        s.column == 0,
        bytes.len() == W + 1,
        forall|i: int| 0 <= i < bytes.len() ==> bytes[i] != NEWLINE,
    ensures
        s.line_breaks(bytes) == 1,
        s.write_bytes(bytes).column == 1,
        s.write_bytes(bytes).rows[H - 1][0] == glyph(bytes[W as int], s.color),
        forall|i: int|
            0 <= i < W ==> #[trigger] s.write_bytes(bytes).rows[H - 2][i] == glyph(bytes[i], s.color),
        forall|col: int|
            1 <= col < W ==> #[trigger] s.write_bytes(bytes).rows[H - 1][col] == glyph(BLANK, s.color),
        forall|row: int|
            0 <= row < H - 2 ==> #[trigger] s.write_bytes(bytes).rows[row] == s.rows[row + 1],
{
    let front = bytes.take(W as int);
    let last = bytes[W as int];
    lemma_write_within_row(s, front);
    lemma_write_bytes_push(s, front, last);
    let full = s.write_bytes(front);
    lemma_new_line(full);
    assert forall|i: int| 0 <= i < W implies #[trigger] s.write_bytes(bytes).rows[H - 2][i]
        == glyph(bytes[i], s.color) by {
        assert(full.bottom()[s.column + i] == glyph(front[i], s.color));
    }
}

/// The cell that byte `i` of `bytes` is stored as, for a byte other than the
/// newline: the cell before the cursor once the byte is written.
pub open spec fn written_cell(s: Screen, bytes: Seq<u8>, i: int) -> ScreenChar {
    let after = s.write_bytes(bytes.take(i + 1));
    after.bottom()[after.column - 1]
}

/// Every byte but the newline is stored as it is, with the attribute that the
/// writer had before the first byte.
pub proof fn lemma_written_cell(s: Screen, bytes: Seq<u8>, i: int)
    requires
        s.wf(),
        0 <= i < bytes.len(),
        bytes[i] != NEWLINE,
    ensures
        written_cell(s, bytes, i) == glyph(bytes[i], s.color),
{
    let front = bytes.take(i);
    assert(front.push(bytes[i]) =~= bytes.take(i + 1));
    lemma_write_bytes_push(s, front, bytes[i]);
    lemma_write_bytes(s, front);
    lemma_write_byte(s.write_bytes(front), bytes[i]);
}

/// A string is rendered byte by byte: as many bytes, each the rendered one.
/// A string of printable characters is rendered as itself.
pub proof fn lemma_rendered_bytes(bytes: Seq<u8>)
    ensures
        rendered_bytes(bytes).len() == bytes.len(),
        forall|i: int|
            0 <= i < bytes.len() ==> #[trigger] rendered_bytes(bytes)[i] == rendered(bytes[i]),
        (forall|i: int| 0 <= i < bytes.len() ==> printable(#[trigger] bytes[i]))
            ==> rendered_bytes(bytes) == bytes,
{
}

/// Writing two strings one after the other is writing their concatenation.
pub proof fn lemma_write_string_concat(s: Screen, first: Seq<u8>, second: Seq<u8>)
    ensures
        s.write_string(first + second) == s.write_string(first).write_string(second),
{
    assert(rendered_bytes(first + second) =~= rendered_bytes(first) + rendered_bytes(second));
    lemma_write_bytes_concat(s, rendered_bytes(first), rendered_bytes(second));
}

/// Whatever string is written, the grid keeps its shape, the cursor stays
/// within the row and the attribute stays the same.
pub proof fn lemma_write_string(s: Screen, bytes: Seq<u8>)
    requires
        s.wf(),
    ensures
        s.write_string(bytes).wf(),
        s.write_string(bytes).color == s.color,
{
    lemma_write_bytes(s, rendered_bytes(bytes));
}

/// Printable characters without a newline, written from column 0 and no more
/// than a row of them, are read back from the bottom row as they were
/// written, in order.
pub proof fn lemma_render_fidelity(s: Screen, bytes: Seq<u8>)
    requires
        s.wf(),
        s.column == 0,
        bytes.len() <= W,
        forall|i: int| 0 <= i < bytes.len() ==> printable(#[trigger] bytes[i]),
    ensures
        s.write_string(bytes).column == bytes.len(),
        forall|i: int|
            0 <= i < bytes.len() ==> #[trigger] s.write_string(bytes).bottom()[i] == glyph(
                bytes[i],
                s.color,
            ),
{
    lemma_rendered_bytes(bytes);
    lemma_write_within_row(s, bytes);
    assert forall|i: int| 0 <= i < bytes.len() implies #[trigger] s.write_string(bytes).bottom()[i]
        == glyph(bytes[i], s.color) by {
        assert(s.write_bytes(bytes).bottom()[s.column + i] == glyph(bytes[i], s.color));
    }
}

/// A byte of a string that is neither printable nor the newline is stored as
/// the placeholder glyph, wherever in the string it stands.
pub proof fn lemma_substitution(s: Screen, bytes: Seq<u8>, i: int)
    requires
        s.wf(),
        0 <= i < bytes.len(),
        !printable(bytes[i]),
        bytes[i] != NEWLINE,
    ensures
        rendered_bytes(bytes)[i] == PLACEHOLDER,
        written_cell(s, rendered_bytes(bytes), i) == glyph(PLACEHOLDER, s.color),
        s.write_string(bytes.take(i + 1)) == s.write_string(bytes.take(i)).write_byte(PLACEHOLDER),
{
    lemma_rendered_bytes(bytes);
    lemma_written_cell(s, rendered_bytes(bytes), i);
    assert(rendered_bytes(bytes.take(i + 1)) =~= rendered_bytes(bytes.take(i)).push(PLACEHOLDER));
    lemma_write_bytes_push(s, rendered_bytes(bytes.take(i)), PLACEHOLDER);
}

/// `W + 1` printable characters written from column 0 break the line once:
/// the character at position `W` stands at column 0 of the bottom row, the one
/// at position `W - 1` is the last of the row above, which holds the first `W`
/// characters.
pub proof fn lemma_wrap(s: Screen, bytes: Seq<u8>)
    requires
        s.wf(),
        s.column == 0,
        bytes.len() == W + 1,
        forall|i: int| 0 <= i < bytes.len() ==> printable(#[trigger] bytes[i]),
    ensures
        s.line_breaks(rendered_bytes(bytes)) == 1,
        s.write_string(bytes).column == 1,
        s.write_string(bytes).rows[H - 1][0] == glyph(bytes[W as int], s.color),
        s.write_string(bytes).rows[H - 2][W - 1] == glyph(bytes[W - 1], s.color),
        forall|i: int|
            0 <= i < W ==> #[trigger] s.write_string(bytes).rows[H - 2][i] == glyph(bytes[i], s.color),
        forall|col: int|
            1 <= col < W ==> #[trigger] s.write_string(bytes).rows[H - 1][col] == glyph(BLANK, s.color),
        forall|row: int|
            0 <= row < H - 2 ==> #[trigger] s.write_string(bytes).rows[row] == s.rows[row + 1],
{
    lemma_rendered_bytes(bytes);
    lemma_write_one_past_row(s, bytes);
}

/// A string written twice by one writer gets the same attribute bytes both
/// times, cell for cell: the writer's own.
pub proof fn lemma_same_attribute_twice(s: Screen, bytes: Seq<u8>, i: int)
    requires
        s.wf(),
        0 <= i < bytes.len(),
        bytes[i] != NEWLINE,
    ensures
        written_cell(s, rendered_bytes(bytes), i).color == written_cell(
            s.write_string(bytes),
            rendered_bytes(bytes),
            i,
        ).color,
        written_cell(s, rendered_bytes(bytes), i) == glyph(rendered(bytes[i]), s.color),
{
    lemma_rendered_bytes(bytes);
    lemma_write_string(s, bytes);
    lemma_written_cell(s, rendered_bytes(bytes), i);
    lemma_written_cell(s.write_string(bytes), rendered_bytes(bytes), i);
}

/// Whether the display has a glyph for the character of a cell: it is
/// printable or the placeholder.
pub open spec fn renderable(ch: u8) -> bool {
    printable(ch) || ch == PLACEHOLDER
}

/// Whether every cell of the grid holds a character that the display has a
/// glyph for.
pub open spec fn all_renderable(s: Screen) -> bool {
    forall|row: int, col: int|
        0 <= row < H && 0 <= col < W ==> renderable(#[trigger] s.rows[row][col].ch)
}

/// A grid of renderable characters stays one when a renderable character or
/// a newline is written.
pub proof fn lemma_write_byte_renderable(s: Screen, byte: u8)
    requires
        s.wf(),
        all_renderable(s),
        renderable(byte) || byte == NEWLINE,
    ensures
        all_renderable(s.write_byte(byte)),
{
    let broken = s.new_line();
    lemma_new_line(s);
    assert forall|row: int, col: int| 0 <= row < H && 0 <= col < W implies renderable(
        #[trigger] broken.rows[row][col].ch,
    ) by {
        if row < H - 1 {
            assert(broken.rows[row] == s.rows[row + 1]);
            assert(renderable(s.rows[row + 1][col].ch));
        }
    }
}

/// A grid of renderable characters stays one, whatever string is written.
pub proof fn lemma_grid_stays_renderable(s: Screen, bytes: Seq<u8>)
    requires
        s.wf(),
        all_renderable(s),
    ensures
        all_renderable(s.write_string(bytes)),
    decreases bytes.len(),
{
    if bytes.len() > 0 {
        let front = bytes.drop_last();
        lemma_grid_stays_renderable(s, front);
        lemma_write_string(s, front);
        assert(rendered_bytes(bytes) =~= rendered_bytes(front).push(rendered(bytes.last())));
        lemma_write_bytes_push(s, rendered_bytes(front), rendered(bytes.last()));
        lemma_write_byte_renderable(s.write_string(front), rendered(bytes.last()));
    }
}

} // verus!
