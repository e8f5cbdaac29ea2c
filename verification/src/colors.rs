//! The style table: every recognized style name and its SGR code pair.
//!
//! Each style maps to a pair of SGR parameters: an "on" code that activates
//! the style and an "off" code that deactivates exactly that style without
//! resetting unrelated styles. The mapping is fixed and is a compatibility
//! surface: changing any value would break consumers.

use vstd::prelude::*;

verus! {

/// A recognized style name. The set of names is closed: an invalid name is a
/// build-time failure, never a runtime error. `Gray`, `Grey` and `LtBlack`
/// intentionally alias the same code pair (bright black).
#[derive(Clone, Copy, PartialEq, Eq, Structural)]
pub enum Style {
    Reset,
    Bold,
    Dim,
    Italic,
    Underline,
    Inverse,
    Hidden,
    Strikethrough,
    Black,
    Red,
    Green,
    Yellow,
    Blue,
    Magenta,
    Cyan,
    White,
    Gray,
    Grey,
    LtBlack,
    LtRed,
    LtGreen,
    LtYellow,
    LtBlue,
    LtMagenta,
    LtCyan,
    LtWhite,
    BgBlack,
    BgRed,
    BgGreen,
    BgYellow,
    BgBlue,
    BgMagenta,
    BgCyan,
    BgWhite,
    BgLtBlack,
    BgLtRed,
    BgLtGreen,
    BgLtYellow,
    BgLtBlue,
    BgLtMagenta,
    BgLtCyan,
    BgLtWhite,
}

/// An SGR code pair: `on` activates the style, `off` deactivates exactly that
/// style (resetting it to default) without touching unrelated active styles.
#[derive(Clone, Copy, PartialEq, Eq, Structural)]
pub struct StyleCode {
    pub on: u8,
    pub off: u8,
}

/// The SGR parameter that activates a style.
pub open spec fn on_code(s: Style) -> u8 {
    match s {
        Style::Reset => 0,
        Style::Bold => 1,
        Style::Dim => 2,
        Style::Italic => 3,
        Style::Underline => 4,
        Style::Inverse => 7,
        Style::Hidden => 8,
        Style::Strikethrough => 9,
        Style::Black => 30,
        Style::Red => 31,
        Style::Green => 32,
        Style::Yellow => 33,
        Style::Blue => 34,
        Style::Magenta => 35,
        Style::Cyan => 36,
        Style::White => 37,
        Style::Gray => 90,
        Style::Grey => 90,
        Style::LtBlack => 90,
        Style::LtRed => 91,
        Style::LtGreen => 92,
        Style::LtYellow => 93,
        Style::LtBlue => 94,
        Style::LtMagenta => 95,
        Style::LtCyan => 96,
        Style::LtWhite => 97,
        Style::BgBlack => 40,
        Style::BgRed => 41,
        Style::BgGreen => 42,
        Style::BgYellow => 43,
        Style::BgBlue => 44,
        Style::BgMagenta => 45,
        Style::BgCyan => 46,
        Style::BgWhite => 47,
        Style::BgLtBlack => 100,
        Style::BgLtRed => 101,
        Style::BgLtGreen => 102,
        Style::BgLtYellow => 103,
        Style::BgLtBlue => 104,
        Style::BgLtMagenta => 105,
        Style::BgLtCyan => 106,
        Style::BgLtWhite => 107,
    }
}

/// The SGR parameter that deactivates a style.
pub open spec fn off_code(s: Style) -> u8 {
    match s {
        Style::Reset => 0,
        Style::Bold => 22,
        Style::Dim => 22,
        Style::Italic => 23,
        Style::Underline => 24,
        Style::Inverse => 27,
        Style::Hidden => 28,
        Style::Strikethrough => 29,
        Style::Black => 39,
        Style::Red => 39,
        Style::Green => 39,
        Style::Yellow => 39,
        Style::Blue => 39,
        Style::Magenta => 39,
        Style::Cyan => 39,
        Style::White => 39,
        Style::Gray => 39,
        Style::Grey => 39,
        Style::LtBlack => 39,
        Style::LtRed => 39,
        Style::LtGreen => 39,
        Style::LtYellow => 39,
        Style::LtBlue => 39,
        Style::LtMagenta => 39,
        Style::LtCyan => 39,
        Style::LtWhite => 39,
        Style::BgBlack => 49,
        Style::BgRed => 49,
        Style::BgGreen => 49,
        Style::BgYellow => 49,
        Style::BgBlue => 49,
        Style::BgMagenta => 49,
        Style::BgCyan => 49,
        Style::BgWhite => 49,
        Style::BgLtBlack => 49,
        Style::BgLtRed => 49,
        Style::BgLtGreen => 49,
        Style::BgLtYellow => 49,
        Style::BgLtBlue => 49,
        Style::BgLtMagenta => 49,
        Style::BgLtCyan => 49,
        Style::BgLtWhite => 49,
    }
}

/// Look up the SGR code pair for a style. The lookup always succeeds: the set
/// of names is closed, so there is no "unrecognized name" error path.
pub fn style_code(s: Style) -> (r: StyleCode)
    ensures
        r.on == on_code(s),
        r.off == off_code(s),
{
    match s {
        Style::Reset => StyleCode { on: 0, off: 0 },
        Style::Bold => StyleCode { on: 1, off: 22 },
        Style::Dim => StyleCode { on: 2, off: 22 },
        Style::Italic => StyleCode { on: 3, off: 23 },
        Style::Underline => StyleCode { on: 4, off: 24 },
        Style::Inverse => StyleCode { on: 7, off: 27 },
        Style::Hidden => StyleCode { on: 8, off: 28 },
        Style::Strikethrough => StyleCode { on: 9, off: 29 },
        Style::Black => StyleCode { on: 30, off: 39 },
        Style::Red => StyleCode { on: 31, off: 39 },
        Style::Green => StyleCode { on: 32, off: 39 },
        Style::Yellow => StyleCode { on: 33, off: 39 },
        Style::Blue => StyleCode { on: 34, off: 39 },
        Style::Magenta => StyleCode { on: 35, off: 39 },
        Style::Cyan => StyleCode { on: 36, off: 39 },
        Style::White => StyleCode { on: 37, off: 39 },
        Style::Gray => StyleCode { on: 90, off: 39 },
        Style::Grey => StyleCode { on: 90, off: 39 },
        Style::LtBlack => StyleCode { on: 90, off: 39 },
        Style::LtRed => StyleCode { on: 91, off: 39 },
        Style::LtGreen => StyleCode { on: 92, off: 39 },
        Style::LtYellow => StyleCode { on: 93, off: 39 },
        Style::LtBlue => StyleCode { on: 94, off: 39 },
        Style::LtMagenta => StyleCode { on: 95, off: 39 },
        Style::LtCyan => StyleCode { on: 96, off: 39 },
        Style::LtWhite => StyleCode { on: 97, off: 39 },
        Style::BgBlack => StyleCode { on: 40, off: 49 },
        Style::BgRed => StyleCode { on: 41, off: 49 },
        Style::BgGreen => StyleCode { on: 42, off: 49 },
        Style::BgYellow => StyleCode { on: 43, off: 49 },
        Style::BgBlue => StyleCode { on: 44, off: 49 },
        Style::BgMagenta => StyleCode { on: 45, off: 49 },
        Style::BgCyan => StyleCode { on: 46, off: 49 },
        Style::BgWhite => StyleCode { on: 47, off: 49 },
        Style::BgLtBlack => StyleCode { on: 100, off: 49 },
        Style::BgLtRed => StyleCode { on: 101, off: 49 },
        Style::BgLtGreen => StyleCode { on: 102, off: 49 },
        Style::BgLtYellow => StyleCode { on: 103, off: 49 },
        Style::BgLtBlue => StyleCode { on: 104, off: 49 },
        Style::BgLtMagenta => StyleCode { on: 105, off: 49 },
        Style::BgLtCyan => StyleCode { on: 106, off: 49 },
        Style::BgLtWhite => StyleCode { on: 107, off: 49 },
    }
}

/// The three spellings of bright black alias one code pair: `gray`, `grey`
/// and `lt_black` all activate with 90 and deactivate with 39, so activating
/// or deactivating any of the three emits identical bytes.
pub proof fn lemma_bright_black_aliases()
    ensures
        on_code(Style::Gray) == 90 && off_code(Style::Gray) == 39,
        on_code(Style::Grey) == on_code(Style::Gray),
        off_code(Style::Grey) == off_code(Style::Gray),
        on_code(Style::LtBlack) == on_code(Style::Gray),
        off_code(Style::LtBlack) == off_code(Style::Gray),
{
}

} // verus!
