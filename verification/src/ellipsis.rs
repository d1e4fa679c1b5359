//! Truncating overflow effect: long text is cut at the width limit and
//! marked with an ellipsis.

use vstd::prelude::*;
use vstd::string::{StrSliceExecFns, StringExecFns};

verus! {

pub struct Ellipsis {
    text: String,
    max_width: u16,
    active: bool,
}

pub struct EllipsisV {
    pub text: Seq<char>,
    pub max_width: u16,
    pub active: bool,
}

impl View for Ellipsis {
    type V = EllipsisV;

    closed spec fn view(&self) -> EllipsisV {
        EllipsisV { text: self.text@, max_width: self.max_width, active: self.active }
    }
}

/// Text no longer than the width limit (or an unlimited width) passes
/// through; longer text is cut at the limit and suffixed with three dots.
pub open spec fn spec_ellipsis_apply(e: EllipsisV, text: Seq<char>) -> Seq<char> {
    if text.len() <= e.max_width || e.max_width == 0 {
        text
    } else {
        text.subrange(0, e.max_width as int) + "..."@
    }
}

impl Ellipsis {
    /// An inactive effect with the given width limit; `0` disables it.
    pub fn new(max_width: u16) -> (r: Ellipsis)
        ensures
            r@ == (EllipsisV { text: Seq::<char>::empty(), max_width, active: false }),
    {
        Ellipsis { text: String::new(), max_width, active: false }
    }

    /// Applies the effect to one line of text; the effect's own state is
    /// untouched.
    pub fn apply(&mut self, text: String) -> (r: String)
        ensures
            final(self)@ == old(self)@,
            r@ == spec_ellipsis_apply(old(self)@, text@),
    {
        let n = text.as_str().unicode_len();
        if n <= self.max_width as usize || self.max_width == 0 {
            return text;
        }
        let head = text.as_str().substring_char(0, self.max_width as usize);
        let mut out = String::from_str(head);
        out.append("...");
        out
    }

    pub fn is_active(&self) -> (r: bool)
        ensures
            r == self@.active,
    {
        self.active
    }

    /// Marks the effect active: truncation applies whenever text is set.
    pub fn update_active(&mut self)
        ensures
            final(self)@ == (EllipsisV { active: true, ..old(self)@ }),
    {
        self.active = true;
    }

    pub fn set_text(&mut self, text: String)
        ensures
            final(self)@ == (EllipsisV { text: text@, active: true, ..old(self)@ }),
    {
        self.text = text;
        self.update_active();
    }
}

} // verus!
