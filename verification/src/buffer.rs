//! The memory of the display: `H` rows of `W` volatile cells of two bytes, the
//! character code first and the attribute byte second.

use crate::color::ColorCode;
use crate::screen::{ScreenChar, H, W};
use volatile::Volatile;
use vstd::prelude::*;

verus! {

/// `volatile::Volatile`: a value that is only read and written by volatile
/// accesses.
#[verifier::external_type_specification]
#[verifier::external_body]
#[verifier::reject_recursive_types(T)]
pub struct ExVolatile<T: Copy>(Volatile<T>);

/// The physical address at which the display's memory begins.
pub const BUFFER_ADDRESS: usize = 0xb8000;

/// The grid as it lies in memory, row by row.
pub type Buffer = [[Volatile<[u8; 2]>; W]; H];

/// The two bytes that a volatile cell contains.
pub uninterp spec fn held(cell: Volatile<[u8; 2]>) -> Seq<u8>;

/// `Volatile::read`: a volatile read, which returns a copy of the contained
/// value.
#[verifier::external_body]
fn volatile_read(cell: &Volatile<[u8; 2]>) -> (value: [u8; 2])
    ensures
        value@ == held(*cell),
{
    cell.read()
}

/// `Volatile::write`: a volatile write, after which the contained value is the
/// one given. It never panics.
#[verifier::external_body]
fn volatile_write(cell: &mut Volatile<[u8; 2]>, value: [u8; 2])
    ensures
        held(*final(cell)) == value@,
    no_unwind
{
    cell.write(value)
}

/// The cell that two bytes of display memory show.
pub open spec fn decode(bytes: Seq<u8>) -> ScreenChar {
    ScreenChar { ch: bytes[0], color: ColorCode(bytes[1]) }
}

/// The cells of a buffer, row by row.
pub open spec fn grid(buf: Buffer) -> Seq<Seq<ScreenChar>> {
    Seq::new(H as nat, |row: int| Seq::new(W as nat, |col: int| decode(held(buf[row][col]))))
}

/// Reads the cell at `row` and `col`.
pub fn read_cell(buf: &Buffer, row: usize, col: usize) -> (cell: ScreenChar)
    requires
        row < H,
        col < W,
    ensures
        cell == grid(*buf)[row as int][col as int],
{
    let bytes = volatile_read(&buf[row][col]);
    ScreenChar { ch: bytes[0], color: ColorCode(bytes[1]) }
}

/// Writes `cell` at `row` and `col`, and leaves every other cell as it is.
pub fn write_cell(buf: &mut Buffer, row: usize, col: usize, cell: ScreenChar)
    requires
        row < H,
        col < W,
    ensures
        grid(*final(buf)) == grid(*old(buf)).update(
            row as int,
            grid(*old(buf))[row as int].update(col as int, cell),
        ),
    no_unwind
{
    volatile_write(&mut buf[row][col], [cell.ch, cell.color.0]);
    assert(grid(*buf) =~~= grid(*old(buf)).update(
        row as int,
        grid(*old(buf))[row as int].update(col as int, cell),
    ));
}

} // verus!
