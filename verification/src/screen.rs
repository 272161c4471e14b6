//! The mathematical model of the display: a grid of character cells, a
//! cursor column and the current attribute, and what writing does to them.

use crate::color::ColorCode;
use vstd::prelude::*;

verus! {

/// Number of rows of the grid.
pub const H: usize = 25;

/// Number of columns of the grid.
pub const W: usize = 80;

/// The byte that breaks the line.
pub const NEWLINE: u8 = 0x0a;

/// The character of a cleared cell.
pub const BLANK: u8 = 0x20;

/// The display's glyph for a byte it cannot render.
pub const PLACEHOLDER: u8 = 0xfe;

/// One cell of the grid: a character code and its attribute byte.
#[derive(Debug, Clone, Copy, PartialEq, Eq, Structural)]
pub struct ScreenChar {
    pub ch: u8,
    pub color: ColorCode,
}

/// The cell that shows `ch` in the attribute `color`.
pub open spec fn glyph(ch: u8, color: ColorCode) -> ScreenChar {
    ScreenChar { ch, color }
}

/// Whether the display has a glyph for `byte`: printable ASCII.
pub open spec fn printable(byte: u8) -> bool {
    0x20 <= byte <= 0x7e
}

/// The byte that a string's byte is written as: itself if it is printable or
/// the newline, else the placeholder.
pub open spec fn rendered(byte: u8) -> u8 {
    if printable(byte) || byte == NEWLINE {
        byte
    } else {
        PLACEHOLDER
    }
}

/// The bytes that the bytes of a string are written as.
pub open spec fn rendered_bytes(bytes: Seq<u8>) -> Seq<u8> {
    bytes.map_values(|byte: u8| rendered(byte))
}

/// A row of blank cells with the given attribute.
pub open spec fn blank_row(color: ColorCode) -> Seq<ScreenChar> {
    Seq::new(W as nat, |col: int| glyph(BLANK, color))
}

/// The state of a writer: the grid row by row from the top, the cursor
/// column in the bottom row, and the attribute given to new cells.
pub struct Screen {
    pub rows: Seq<Seq<ScreenChar>>,
    pub column: nat,
    pub color: ColorCode,
}

impl Screen {
    /// The grid has `H` rows of `W` cells, and the cursor is at most one
    /// past the last column.
    pub open spec fn wf(self) -> bool {
        &&& self.rows.len() == H
        &&& forall|row: int| 0 <= row < H ==> (#[trigger] self.rows[row]).len() == W
        &&& self.column <= W
    }

    /// The bottom row.
    pub open spec fn bottom(self) -> Seq<ScreenChar> {
        self.rows[H - 1]
    }

    /// A line break: every row moves up by one, the top row is dropped, the
    /// bottom row is blank in the current attribute, the cursor is at 0.
    pub open spec fn new_line(self) -> Screen {
        Screen {
            rows: self.rows.subrange(1, H as int).push(blank_row(self.color)),
            column: 0,
            color: self.color,
        }
    }

    /// Whether writing `byte` breaks the line first: it is the newline, or the
    /// bottom row is full.
    pub open spec fn breaks_line(self, byte: u8) -> bool {
        byte == NEWLINE || self.column >= W
    }

    /// The column that the next character is stored at.
    pub open spec fn target_column(self) -> int {
        if self.column >= W {
            0
        } else {
            self.column as int
        }
    }

    /// The state with `cell` stored in the bottom row at the cursor, and the
    /// cursor one further.
    pub open spec fn put(self, cell: ScreenChar) -> Screen {
        Screen {
            rows: self.rows.update(H - 1, self.bottom().update(self.column as int, cell)),
            column: self.column + 1,
            color: self.color,
        }
    }

    /// The state after one byte is written: the newline only breaks the line;
    /// any other byte breaks the line if the row is full, and is then stored
    /// at the cursor with the current attribute.
    pub open spec fn write_byte(self, byte: u8) -> Screen {
        if byte == NEWLINE {
            self.new_line()
        } else if self.column >= W {
            self.new_line().put(glyph(byte, self.color))
        } else {
            self.put(glyph(byte, self.color))
        }
    }

    /// The state after the given bytes are written one after the other, each
    /// as `write_byte` writes it.
    pub open spec fn write_bytes(self, bytes: Seq<u8>) -> Screen
        decreases bytes.len(),
    {
        if bytes.len() == 0 {
            self
        } else {
            self.write_bytes(bytes.drop_last()).write_byte(bytes.last())
        }
    }

    /// The state after a string is written: its bytes in order, each as its
    /// rendered byte.
    pub open spec fn write_string(self, bytes: Seq<u8>) -> Screen {
        self.write_bytes(rendered_bytes(bytes))
    }

    /// The number of line breaks that writing the given bytes one after the
    /// other causes.
    pub open spec fn line_breaks(self, bytes: Seq<u8>) -> nat
        decreases bytes.len(),
    {
        if bytes.len() == 0 {
            0
        } else {
            let last: nat = if self.write_bytes(bytes.drop_last()).breaks_line(bytes.last()) {
                1
            } else {
                0
            };
            self.line_breaks(bytes.drop_last()) + last
        }
    }
}

} // verus!
