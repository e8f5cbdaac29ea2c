//! A minimal terminal text-styling library.
//!
//! A fixed table maps human-readable style names (`red`, `bold`, `bg_green`,
//! ...) to ANSI SGR escape-code pairs: an "on" code that activates the style
//! and an "off" code that deactivates exactly that style. The emitter writes
//! the byte sequence `ESC [ <code> m` for a style, either straight to standard
//! output or into a caller-owned buffer. A small helper computes the console
//! mode word that enables virtual-terminal processing on legacy consoles.

pub mod colors;
pub mod emit;

use vstd::prelude::*;

use crate::colors::Style;
use crate::emit::{activation_sequence, deactivation_sequence};

verus! {

/// On platforms whose terminals interpret ANSI escape sequences by default,
/// no setup is needed before styling: this is a no-op. Legacy consoles that
/// disable escape interpretation need their mode flag raised instead; see the
/// console-mode helpers below for the flag arithmetic.
pub fn init() {
}

/// The console mode flag under which a legacy console interprets ANSI escape
/// sequences instead of printing them literally.
pub const VT_PROCESSING_FLAG: u32 = 0x0004;

/// Whether a console mode word already has virtual-terminal processing
/// switched on.
pub fn vt_processing_enabled(mode: u32) -> (r: bool)
    ensures
        r == (mode & VT_PROCESSING_FLAG != 0u32),
{
    mode & VT_PROCESSING_FLAG != 0
}

/// The read-modify-write decision of the terminal initializer: given the
/// mode word read from the console, the word to store — the same word with
/// virtual-terminal processing added and every other flag untouched — or
/// nothing when the flag is already set and the console needs no change.
pub fn vt_mode_update(mode: u32) -> (r: Option<u32>)
    ensures
        mode & VT_PROCESSING_FLAG == 0u32 ==> r == Some(mode | VT_PROCESSING_FLAG),
        mode & VT_PROCESSING_FLAG != 0u32 ==> r == None::<u32>,
{
    if mode & VT_PROCESSING_FLAG == 0 {
        Some(mode | VT_PROCESSING_FLAG)
    } else {
        None
    }
}

/// Raising the virtual-terminal flag is idempotent: the raised word has the
/// flag set, raising it again changes nothing, and a word that already has
/// the flag is left exactly as it is — so running the initializer twice in
/// a row makes the second run a no-op.
pub proof fn lemma_vt_flag_idempotent(mode: u32)
    ensures
        (mode | VT_PROCESSING_FLAG) & VT_PROCESSING_FLAG != 0u32,
        (mode | VT_PROCESSING_FLAG) | VT_PROCESSING_FLAG == mode | VT_PROCESSING_FLAG,
        mode & VT_PROCESSING_FLAG != 0u32 ==> (mode | VT_PROCESSING_FLAG) == mode,
{
    assert((mode | 0x0004u32) & 0x0004u32 != 0u32) by (bit_vector);
    assert((mode | 0x0004u32) | 0x0004u32 == mode | 0x0004u32) by (bit_vector);
    assert(mode & 0x0004u32 != 0u32 ==> (mode | 0x0004u32) == mode) by (bit_vector);
}

/// Relies on std::io::stdout and std::io::Write::write_all: writes the given
/// bytes to the standard output stream, in order, with no additions. A failed
/// write is not reported at this layer: styling is cosmetic, and degraded
/// output is the documented fallback.
#[verifier::external_body]
fn write_stdout(bytes: &Vec<u8>) {
    let _ = std::io::Write::write_all(&mut std::io::stdout(), bytes.as_slice());
}

/// Write the escape sequence that activates a style to standard output:
/// exactly `ESC [ <on-code> m`, no trailing newline, no flush forced.
pub fn activate(s: Style) {
    let buf = activation_sequence(s);
    write_stdout(&buf);
}

/// Write the escape sequence that deactivates a style to standard output:
/// exactly `ESC [ <off-code> m`. No prior activation is needed; the reset
/// code is emitted regardless.
pub fn deactivate(s: Style) {
    let buf = deactivation_sequence(s);
    write_stdout(&buf);
}

} // verus!
