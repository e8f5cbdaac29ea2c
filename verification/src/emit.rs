//! Emission of SGR escape sequences.
//!
//! The wire format is `ESC '[' <decimal-code> 'm'`: the escape byte 0x1B, a
//! literal `[`, the code rendered as decimal ASCII digits with no leading
//! zeros, and a literal `m`. No newline or reset is ever appended. Emission
//! is stateless: activations and deactivations are independent writes, and
//! pairing them correctly is entirely the caller's business.

use vstd::prelude::*;

use crate::colors::{Style, on_code, off_code, style_code};

verus! {

/// The decimal ASCII digits of a code, most significant first, without
/// leading zeros.
pub open spec fn dec_digits(n: u8) -> Seq<u8> {
    if n < 10 {
        seq![(n + 0x30) as u8]
    } else if n < 100 {
        seq![(n / 10 + 0x30) as u8, (n % 10 + 0x30) as u8]
    } else {
        seq![(n / 100 + 0x30) as u8, (n / 10 % 10 + 0x30) as u8, (n % 10 + 0x30) as u8]
    }
}

/// The full escape sequence for one SGR code: `ESC [ <code> m`.
pub open spec fn sgr_sequence(code: u8) -> Seq<u8> {
    seq![0x1bu8, 0x5bu8] + dec_digits(code) + seq![0x6du8]
}

/// Append the escape sequence for one SGR code to a byte buffer.
pub fn push_sgr(out: &mut Vec<u8>, code: u8)
    ensures
        final(out)@ == old(out)@ + sgr_sequence(code),
{
    out.push(0x1b);
    out.push(0x5b);
    if code >= 100 {
        out.push(code / 100 + 0x30);
        out.push(code / 10 % 10 + 0x30);
        out.push(code % 10 + 0x30);
    } else if code >= 10 {
        out.push(code / 10 + 0x30);
        out.push(code % 10 + 0x30);
    } else {
        out.push(code + 0x30);
    }
    out.push(0x6d);
    proof {
        assert(out@ =~= old(out)@ + sgr_sequence(code));
    }
}

/// The escape sequence that activates a style, as an owned buffer.
pub fn activation_sequence(s: Style) -> (r: Vec<u8>)
    ensures
        r@ == sgr_sequence(on_code(s)),
{
    let mut buf: Vec<u8> = Vec::new();
    push_sgr(&mut buf, style_code(s).on);
    buf
}

/// The escape sequence that deactivates a style, as an owned buffer.
pub fn deactivation_sequence(s: Style) -> (r: Vec<u8>)
    ensures
        r@ == sgr_sequence(off_code(s)),
{
    let mut buf: Vec<u8> = Vec::new();
    push_sgr(&mut buf, style_code(s).off);
    buf
}

/// A styled-output emitter that collects its bytes in an owned buffer.
///
/// Styling can be switched off at construction: a disabled emitter passes
/// plain text through and drops the escape sequences, so call sites need not
/// change when styling is turned off. It is enabled by default. The emitter
/// keeps no record of which styles are active: unbalanced or repeated calls
/// are well-defined and simply emit their sequence each time.
pub struct Emitter {
    enabled: bool,
    out: Vec<u8>,
}

impl Emitter {
    /// Whether this emitter writes escape sequences.
    pub closed spec fn styling_enabled(&self) -> bool {
        self.enabled
    }

    /// Every byte written so far, in order.
    pub closed spec fn written(&self) -> Seq<u8> {
        self.out@
    }

    /// A fresh emitter with styling enabled, the default.
    pub fn new() -> (r: Emitter)
        ensures
            r.styling_enabled(),
            r.written() == Seq::<u8>::empty(),
    {
        Emitter { enabled: true, out: Vec::new() }
    }

    /// A fresh emitter with styling switched on or off by the caller.
    pub fn with_styling(enabled: bool) -> (r: Emitter)
        ensures
            r.styling_enabled() == enabled,
            r.written() == Seq::<u8>::empty(),
    {
        Emitter { enabled, out: Vec::new() }
    }

    /// Whether this emitter writes escape sequences.
    pub fn is_enabled(&self) -> (r: bool)
        ensures
            r == self.styling_enabled(),
    {
        self.enabled
    }

    /// Emit the "on" escape sequence for a style; with styling disabled,
    /// emit nothing. Activation is stateless: each call appends the same
    /// bytes, whatever was emitted before.
    pub fn activate(&mut self, s: Style)
        ensures
            final(self).styling_enabled() == old(self).styling_enabled(),
            old(self).styling_enabled() ==> final(self).written() == old(self).written()
                + sgr_sequence(on_code(s)),
            !old(self).styling_enabled() ==> final(self).written() == old(self).written(),
    {
        if self.enabled {
            push_sgr(&mut self.out, style_code(s).on);
        }
    }

    /// Emit the "off" escape sequence for a style; with styling disabled,
    /// emit nothing. Deactivation needs no prior activation: it simply
    /// emits the reset code for the style.
    pub fn deactivate(&mut self, s: Style)
        ensures
            final(self).styling_enabled() == old(self).styling_enabled(),
            old(self).styling_enabled() ==> final(self).written() == old(self).written()
                + sgr_sequence(off_code(s)),
            !old(self).styling_enabled() ==> final(self).written() == old(self).written(),
    {
        if self.enabled {
            push_sgr(&mut self.out, style_code(s).off);
        }
    }

    /// Emit plain text, styled or not: text is never dropped, only the
    /// escape sequences are subject to the styling switch.
    pub fn write_text(&mut self, text: &[u8])
        ensures
            final(self).styling_enabled() == old(self).styling_enabled(),
            final(self).written() == old(self).written() + text@,
    {
        let ghost prior = self.out@;
        let n = text.len();
        let mut i: usize = 0;
        while i < n
            invariant
                i <= n,
                n == text@.len(),
                self.enabled == old(self).styling_enabled(),
                self.out@ == prior + text@.take(i as int),
            decreases n - i,
        {
            let b = text[i];
            self.out.push(b);
            i = i + 1;
            proof {
                assert(self.out@ =~= prior + text@.take(i as int));
            }
        }
        proof {
            assert(text@.take(n as int) =~= text@);
        }
    }

    /// The bytes emitted so far, for inspection.
    pub fn output(&self) -> (r: &Vec<u8>)
        ensures
            r@ == self.written(),
    {
        &self.out
    }

    /// Consume the emitter and hand its buffer over.
    pub fn into_bytes(self) -> (r: Vec<u8>)
        ensures
            r@ == self.written(),
    {
        self.out
    }
}

/// Activating a style twice in sequence appends its escape sequence twice,
/// verbatim: whatever was emitted before, the bytes added by the two calls
/// are the sequence duplicated back to back, with no deduplication.
pub proof fn lemma_repeated_activation(prior: Seq<u8>, s: Style)
    ensures
        (prior + sgr_sequence(on_code(s)) + sgr_sequence(on_code(s))).skip(prior.len() as int)
            == sgr_sequence(on_code(s)) + sgr_sequence(on_code(s)),
{
    let a = sgr_sequence(on_code(s));
    assert((prior + a + a).skip(prior.len() as int) =~= a + a);
}

} // verus!
