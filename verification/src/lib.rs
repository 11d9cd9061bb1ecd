//! Bring-up layer of a small x86-64 kernel: the text console, the real-time
//! clock decoder, the keyboard decoder and the interrupt plumbing that ties
//! them to the two cascaded 8259 controllers.
//!
//! The crate does no port I/O of its own: its caller reads the ports and
//! hands the bytes in, and performs the port writes that come back. The
//! console writes to a grid of volatile cells that its caller hands it, which
//! on the machine is the VGA text buffer.
//!
//! # What is proved and what is taken on trust
//!
//! Every function states what it returns and changes over a plain model of
//! its data: the console over a grid of cells with a cursor, the clock over
//! the register bytes of one reading, the controllers over their two vector
//! offsets. Verus proves the functions against these statements.
//!
//! Two outside crates are called, and what is claimed of their functions is
//! not proved: `volatile`, whose `Volatile::read` and `Volatile::write` move
//! the words of the console grid, and `pc-keyboard`, whose `Keyboard` turns
//! scancodes into keys and whose `KeyCode` names the keys. The claims stand
//! with the calls, in `vga_text` and in `keyboard`.

pub mod console_laws;
pub mod interrupts;
pub mod keyboard;
pub mod pic;
pub mod rtc;
pub mod vga_text;
