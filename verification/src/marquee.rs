//! Scrolling overflow effect: long text rotates through a fixed-width
//! window, with a gap of spaces between repetitions.

use vstd::prelude::*;
use vstd::string::StrSliceExecFns;
use crate::text::{chars_to_string, to_chars};

verus! {

/// The gap appended to the text before it wraps around.
pub open spec fn spec_marquee_padding() -> Seq<char> {
    seq![' ', ' ', ' ', ' ', ' ']
}

pub struct Marquee {
    text: String,
    current_pos: usize,
    max_width: u16,
    active: bool,
}

pub struct MarqueeV {
    pub text: Seq<char>,
    pub current_pos: usize,
    pub max_width: u16,
    pub active: bool,
}

impl View for Marquee {
    type V = MarqueeV;

    closed spec fn view(&self) -> MarqueeV {
        MarqueeV {
            text: self.text@,
            current_pos: self.current_pos,
            max_width: self.max_width,
            active: self.active,
        }
    }
}

/// The window shown for one application: text no longer than the width
/// limit (or an unlimited width) passes through; longer text, with the
/// gap appended, is rotated left by the current offset and cut at the
/// width limit.
pub open spec fn spec_marquee_output(m: MarqueeV, text: Seq<char>) -> Seq<char> {
    if text.len() <= m.max_width || m.max_width == 0 {
        text
    } else {
        let padded = text + spec_marquee_padding();
        let start = m.current_pos as int % padded.len() as int;
        let rotated = padded.subrange(start, padded.len() as int) + padded.subrange(0, start);
        rotated.subrange(0, m.max_width as int)
    }
}

/// The effect's state after one application: the offset advances by one
/// position around the padded text; pass-through leaves it alone.
pub open spec fn spec_marquee_step(m: MarqueeV, text: Seq<char>) -> MarqueeV {
    if text.len() <= m.max_width || m.max_width == 0 {
        m
    } else {
        let plen = (text + spec_marquee_padding()).len() as int;
        MarqueeV { current_pos: ((m.current_pos as int % plen + 1) % plen) as usize, ..m }
    }
}

impl Marquee {
    /// An inactive effect with the given width limit; `0` disables it.
    pub fn new(max_width: u16) -> (r: Marquee)
        ensures
            r@ == (MarqueeV {
                text: Seq::<char>::empty(),
                current_pos: 0,
                max_width,
                active: false,
            }),
    {
        Marquee { text: String::new(), current_pos: 0, max_width, active: false }
    }

    /// Applies the effect to one line of text and advances the scroll
    /// offset.
    pub fn apply(&mut self, text: String) -> (r: String)
        ensures
            final(self)@ == spec_marquee_step(old(self)@, text@),
            r@ == spec_marquee_output(old(self)@, text@),
    {
        let n = text.as_str().unicode_len();
        if n <= self.max_width as usize || self.max_width == 0 {
            return text;
        }
        let mut padded = to_chars(text.as_str());
        padded.push(' ');
        padded.push(' ');
        padded.push(' ');
        padded.push(' ');
        padded.push(' ');
        proof {
            assert(padded@ =~= text@ + spec_marquee_padding());
        }
        let plen = padded.len();
        let start = self.current_pos % plen;
        let width = self.max_width as usize;
        let ghost rotated = padded@.subrange(start as int, plen as int) + padded@.subrange(
            0,
            start as int,
        );
        let mut out: Vec<char> = Vec::new();
        let mut j: usize = 0;
        while j < width
            invariant
                j <= width,
                width < plen,
                start < plen,
                plen == padded@.len(),
                rotated == padded@.subrange(start as int, plen as int) + padded@.subrange(
                    0,
                    start as int,
                ),
                out@ == rotated.subrange(0, j as int),
            decreases width - j,
        {
            let idx = if j < plen - start {
                start + j
            } else {
                j - (plen - start)
            };
            proof {
                assert(rotated[j as int] == padded@[idx as int]);
            }
            out.push(padded[idx]);
            j = j + 1;
            proof {
                assert(out@ =~= rotated.subrange(0, j as int));
            }
        }
        self.current_pos = (start + 1) % plen;
        chars_to_string(&out)
    }

    pub fn is_active(&self) -> (r: bool)
        ensures
            r == self@.active,
    {
        self.active
    }

    /// Recomputes whether scrolling applies: only text longer than a
    /// non-zero width limit scrolls.
    pub fn update_active(&mut self)
        ensures
            final(self)@ == (MarqueeV {
                active: old(self)@.text.len() > old(self)@.max_width && old(self)@.max_width > 0,
                ..old(self)@
            }),
    {
        let n = self.text.as_str().unicode_len();
        self.active = n > self.max_width as usize && self.max_width > 0;
    }

    pub fn set_text(&mut self, text: String)
        ensures
            final(self)@ == (MarqueeV {
                text: text@,
                active: text@.len() > old(self)@.max_width && old(self)@.max_width > 0,
                ..old(self)@
            }),
    {
        self.text = text;
        self.update_active();
    }
}

} // verus!
