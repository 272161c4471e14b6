//! The writer: a cursor and an attribute over the display's memory.

use crate::buffer::{grid, read_cell, write_cell, Buffer};
pub use crate::color::{Color, ColorCode};
use crate::screen::{
    blank_row, rendered_bytes, Screen, ScreenChar, BLANK, H, NEWLINE, PLACEHOLDER, W,
};
use spin::{Mutex, MutexGuard};
use vstd::prelude::*;
use vstd::string::StringSliceAdditionalSpecFns;

verus! {

/// Writes text to the bottom row of the display, breaking the line when the
/// row is full or at a newline.
pub struct Writer {
    pos: usize,
    color: ColorCode,
    buf: &'static mut Buffer,
}

impl View for Writer {
    type V = Screen;

    /// The grid as the display memory holds it, the cursor and the attribute.
    closed spec fn view(&self) -> Screen {
        Screen { rows: grid(*self.buf), column: self.pos as nat, color: self.color }
    }
}

impl Writer {
    /// The cursor never passes the end of the row by more than one.
    #[verifier::type_invariant]
    spec fn cursor_in_row(&self) -> bool {
        self.pos <= W
    }

    /// A writer over `buf`, which keeps what `buf` holds: the cursor at
    /// column 0, the attribute white on black.
    pub fn new(buf: &'static mut Buffer) -> (writer: Writer)
        ensures
            writer@ == (Screen { rows: grid(*old(buf)), column: 0, color: ColorCode(0x0f) }),
            writer@.wf(),
    {
        Writer { pos: 0, color: ColorCode::default(), buf }
    }

    /// Writes one byte. The newline breaks the line and stores nothing. Any
    /// other byte is stored in the bottom row at the cursor, after a line
    /// break if the row was full, and the cursor moves one column on.
    pub fn write_byte(&mut self, byte: u8)
        ensures
            final(self)@ == old(self)@.write_byte(byte),
            final(self)@.wf(),
    {
        proof {
            use_type_invariant(&*self);
        }
        if byte == NEWLINE {
            self.new_line();
        } else {
            if self.pos >= W {
                self.new_line();
            }
            let row: usize = H - 1;
            let col: usize = self.pos;
            let color = self.color;
            write_cell(self.buf, row, col, ScreenChar { ch: byte, color });
            self.pos += 1;
        }
    }

    /// Writes the bytes of `s` in order: a printable ASCII byte or a newline
    /// as it is, any other byte as the placeholder glyph.
    pub fn write_string(&mut self, s: &str)
        ensures
            final(self)@ == old(self)@.write_string(s.spec_bytes()),
            final(self)@.wf(),
    {
        proof {
            use_type_invariant(&*self);
        }
        let bytes = s.as_bytes();
        let mut i: usize = 0;
        while i < bytes.len()
            invariant
                i <= bytes.len(),
                bytes@ == s.spec_bytes(),
                self@ == old(self)@.write_string(bytes@.take(i as int)),
                self@.wf(),
            decreases bytes.len() - i,
        {
            let byte = bytes[i];
            proof {
                assert(rendered_bytes(bytes@.take(i + 1)).drop_last() =~= rendered_bytes(
                    bytes@.take(i as int),
                ));
            }
            match byte {
                0x20..=0x7e | 0x0a => self.write_byte(byte),
                _ => self.write_byte(PLACEHOLDER),
            }
            i += 1;
        }
        proof {
            assert(bytes@.take(i as int) =~= bytes@);
        }
    }

    /// Breaks the line: copies every row but the top one into the row above
    /// it, from the top down, clears the bottom row and puts the cursor at
    /// column 0.
    fn new_line(&mut self)
        ensures
            final(self)@ == old(self)@.new_line(),
            final(self)@.wf(),
    {
        proof {
            use_type_invariant(&*self);
        }
        for row in 1..H
            invariant
                self.pos == old(self).pos,
                self.pos <= W,
                self.color == old(self).color,
                forall|r: int| 0 <= r < row - 1 ==> grid(*self.buf)[r] == grid(*old(self).buf)[r + 1],
                forall|r: int| row - 1 <= r < H ==> grid(*self.buf)[r] == grid(*old(self).buf)[r],
        {
            for col in 0..W
                invariant
                    1 <= row < H,
                    self.pos == old(self).pos,
                    self.pos <= W,
                    self.color == old(self).color,
                    forall|r: int| 0 <= r < row - 1 ==> grid(*self.buf)[r] == grid(*old(self).buf)[r + 1],
                    forall|r: int| row <= r < H ==> grid(*self.buf)[r] == grid(*old(self).buf)[r],
                    forall|c: int| 0 <= c < col ==> grid(*self.buf)[row - 1][c] == grid(*old(self).buf)[row as int][c],
            {
                let character = read_cell(self.buf, row, col);
                write_cell(self.buf, row - 1, col, character);
            }
        }
        self.clear_row(H - 1);
        self.pos = 0;
        assert(self@.rows =~= old(self)@.new_line().rows);
    }

    /// Clears `row`: every cell of it becomes a blank in the current
    /// attribute.
    fn clear_row(&mut self, row: usize)
        requires
            row < H,
        ensures
            final(self)@ == (Screen {
                rows: old(self)@.rows.update(row as int, blank_row(old(self)@.color)),
                ..old(self)@
            }),
    {
        proof {
            use_type_invariant(&*self);
        }
        let blank = ScreenChar { ch: BLANK, color: self.color };
        let mut col: usize = 0;
        while col < W
            invariant
                row < H,
                col <= W,
                self.pos <= W,
                self.pos == old(self).pos,
                self.color == old(self).color,
                blank == (ScreenChar { ch: BLANK, color: self.color }),
                grid(*self.buf).len() == H,
                grid(*self.buf)[row as int].len() == W,
                forall|r: int| 0 <= r < H && r != row ==> grid(*self.buf)[r] == grid(*old(self).buf)[r],
                forall|c: int| 0 <= c < col ==> grid(*self.buf)[row as int][c] == blank,
            decreases W - col,
        {
            write_cell(self.buf, row, col, blank);
            col += 1;
        }
        assert(self@.rows =~~= old(self)@.rows.update(
            row as int,
            blank_row(old(self)@.color),
        ));
    }

    /// The cursor column.
    pub fn column(&self) -> (col: usize)
        ensures
            col == self@.column,
            self@.wf(),
    {
        proof {
            use_type_invariant(self);
        }
        self.pos
    }

    /// The cell that the display shows at `row` and `col`.
    pub fn char_at(&self, row: usize, col: usize) -> (cell: ScreenChar)
        requires
            row < H,
            col < W,
        ensures
            cell == self@.rows[row as int][col as int],
            self@.wf(),
    {
        proof {
            use_type_invariant(self);
        }
        read_cell(self.buf, row, col)
    }
}

/// `spin::Mutex`: a lock that a waiting holder spins on.
#[verifier::external_type_specification]
#[verifier::external_body]
#[verifier::reject_recursive_types(T)]
pub struct ExMutex<T: ?Sized>(Mutex<T>);

/// `spin::MutexGuard`: exclusive access to what a `Mutex` protects, for as
/// long as the guard lives.
#[verifier::external_type_specification]
#[verifier::external_body]
#[verifier::reject_recursive_types(T)]
pub struct ExMutexGuard<'a, T: ?Sized + 'a>(MutexGuard<'a, T>);

/// `Mutex::lock`: spins until the lock is free, takes it and returns the
/// guard, which gives the lock back when it is dropped. It does not return
/// while another holder keeps the lock. Nothing is promised of the state that
/// the writer behind the lock is in.
#[verifier::external_body]
fn lock(shared: &Mutex<Writer>) -> (guard: MutexGuard<'_, Writer>) {
    shared.lock()
}

/// `MutexGuard::deref_mut`: the writer that the guard gives access to.
#[verifier::external_body]
fn locked<'a, 'b>(guard: &'a mut MutexGuard<'b, Writer>) -> (writer: &'a mut Writer) {
    &mut *guard
}

/// Prints `text` on the shared writer: takes the lock, spinning while another
/// holder has it, writes `text` as `Writer::write_string` does, and gives the
/// lock back. The lock hides the writer's state from a caller, so what the
/// display then shows is stated by `Writer::write_string`, for the writer
/// that the lock hands out.
pub fn _print(shared: &Mutex<Writer>, text: &str) {
    let mut guard = lock(shared);
    let writer = locked(&mut guard);
    writer.write_string(text);
}

/// `core::fmt::Error`: the error of a formatting sink.
#[verifier::external_type_specification]
#[verifier::external_body]
pub struct ExFmtError(core::fmt::Error);

impl core::fmt::Write for Writer {
    /// Writes `s` as `write_string` does, and never fails.
    fn write_str(&mut self, s: &str) -> (result: core::fmt::Result)
        ensures
            result is Ok,
            final(self)@ == old(self)@.write_string(s.spec_bytes()),
            final(self)@.wf(),
    {
        self.write_string(s);
        Ok(())
    }
}

} // verus!
