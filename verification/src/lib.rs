//! A text-mode writer for a memory-mapped character display.
//!
//! The display is a grid of 25 rows by 80 columns. Text always goes to the
//! bottom row; a line break shifts every row up by one and blanks the bottom
//! row. Every access to the grid is a volatile read or write.
//!
//! * [`color`] packs a foreground and a background colour into the display's
//!   attribute byte.
//! * [`screen`] is the mathematical model: what the grid and the cursor are
//!   after a byte, a string or a line break.
//! * [`buffer`] reads and writes the volatile cells of the display's memory.
//! * [`vga`] is the writer itself, specified against the model, and the
//!   print entry for a writer that is shared behind a lock.
//! * [`laws`] states what the model guarantees for every input.

pub mod color;
pub mod screen;
pub mod buffer;
pub mod vga;
pub mod laws;
