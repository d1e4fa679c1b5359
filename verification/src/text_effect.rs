//! A rate-limited pipeline of display effects for one text field.

use vstd::prelude::*;
use vstd::string::StringExecFns;
use crate::ellipsis::{spec_ellipsis_apply, Ellipsis, EllipsisV};
use crate::marquee::{spec_marquee_output, spec_marquee_step, Marquee, MarqueeV};

verus! {

/// The closed set of display effects a field can carry.
pub enum EffectKind {
    Marquee(Marquee),
    Ellipsis(Ellipsis),
}

pub enum EffectKindV {
    Marquee(MarqueeV),
    Ellipsis(EllipsisV),
}

impl View for EffectKind {
    type V = EffectKindV;

    open spec fn view(&self) -> EffectKindV {
        match self {
            EffectKind::Marquee(m) => EffectKindV::Marquee(m@),
            EffectKind::Ellipsis(e) => EffectKindV::Ellipsis(e@),
        }
    }
}

/// One effect applied to one line of text: the new effect state and the
/// text it produces.
pub open spec fn spec_effect_apply(e: EffectKindV, text: Seq<char>) -> (EffectKindV, Seq<char>) {
    match e {
        EffectKindV::Marquee(m) => (
            EffectKindV::Marquee(spec_marquee_step(m, text)),
            spec_marquee_output(m, text),
        ),
        EffectKindV::Ellipsis(el) => (EffectKindV::Ellipsis(el), spec_ellipsis_apply(el, text)),
    }
}

/// Whether the effect is currently active.
pub open spec fn spec_effect_active(e: EffectKindV) -> bool {
    match e {
        EffectKindV::Marquee(m) => m.active,
        EffectKindV::Ellipsis(el) => el.active,
    }
}

/// A chain of effects applied left to right, each feeding the next: the
/// new effect states and the final text.
pub open spec fn spec_apply_chain(effects: Seq<EffectKindV>, text: Seq<char>) -> (
    Seq<EffectKindV>,
    Seq<char>,
)
    decreases effects.len(),
{
    if effects.len() == 0 {
        (effects, text)
    } else {
        let head = spec_effect_apply(effects[0], text);
        let rest = spec_apply_chain(effects.drop_first(), head.1);
        (seq![head.0] + rest.0, rest.1)
    }
}

impl EffectKind {
    /// Applies the effect to one line of text.
    pub fn apply(&mut self, text: String) -> (r: String)
        ensures
            (final(self)@, r@) == spec_effect_apply(old(self)@, text@),
    {
        match self {
            EffectKind::Marquee(m) => m.apply(text),
            EffectKind::Ellipsis(e) => e.apply(text),
        }
    }

    pub fn is_active(&self) -> (r: bool)
        ensures
            r == spec_effect_active(self@),
    {
        match self {
            EffectKind::Marquee(m) => m.is_active(),
            EffectKind::Ellipsis(e) => e.is_active(),
        }
    }

    /// Hands the effect the text it will be asked to draw, so that it can
    /// decide whether it is active.
    pub fn set_text(&mut self, text: String)
        ensures
            final(self)@ == match old(self)@ {
                EffectKindV::Marquee(m) => EffectKindV::Marquee(
                    MarqueeV {
                        text: text@,
                        active: text@.len() > m.max_width && m.max_width > 0,
                        ..m
                    },
                ),
                EffectKindV::Ellipsis(e) => EffectKindV::Ellipsis(
                    EllipsisV { text: text@, active: true, ..e },
                ),
            },
    {
        match self {
            EffectKind::Marquee(m) => m.set_text(text),
            EffectKind::Ellipsis(e) => e.set_text(text),
        }
    }
}

/// A text field's effect pipeline, re-drawn at most once per
/// `run_every_ms` milliseconds.
pub struct TextEffect {
    last_drawn: String,
    effects: Vec<EffectKind>,
    time: u128,
    run_every_ms: u32,
}

pub struct TextEffectV {
    pub last_drawn: Seq<char>,
    pub effects: Seq<EffectKindV>,
    pub time: u128,
    pub run_every_ms: u32,
}

impl View for TextEffect {
    type V = TextEffectV;

    closed spec fn view(&self) -> TextEffectV {
        TextEffectV {
            last_drawn: self.last_drawn@,
            effects: Seq::new(self.effects@.len(), |i: int| self.effects@[i]@),
            time: self.time,
            run_every_ms: self.run_every_ms,
        }
    }
}

/// Milliseconds elapsed since the pipeline last drew, given the time now;
/// zero if the clock appears to have gone backwards.
pub open spec fn spec_elapsed(t: TextEffectV, now_ms: u128) -> int {
    if now_ms >= t.time {
        now_ms - t.time
    } else {
        0
    }
}

/// One draw of the pipeline: within `run_every_ms` of the last draw the
/// remembered output is repeated and nothing changes; otherwise every
/// effect is applied in order and the result is remembered along with the
/// draw time.
pub open spec fn spec_draw(t: TextEffectV, text: Seq<char>, now_ms: u128) -> (
    TextEffectV,
    Seq<char>,
) {
    if spec_elapsed(t, now_ms) < t.run_every_ms {
        (t, t.last_drawn)
    } else {
        let chained = spec_apply_chain(t.effects, text);
        (
            TextEffectV {
                last_drawn: chained.1,
                effects: chained.0,
                time: now_ms,
                run_every_ms: t.run_every_ms,
            },
            chained.1,
        )
    }
}

impl TextEffect {
    /// An empty pipeline that first drew at `now_ms`.
    pub fn new(run_every_ms: u32, now_ms: u128) -> (r: TextEffect)
        ensures
            r@ == (TextEffectV {
                last_drawn: Seq::<char>::empty(),
                effects: Seq::<EffectKindV>::empty(),
                time: now_ms,
                run_every_ms,
            }),
    {
        let r = TextEffect {
            last_drawn: String::new(),
            effects: Vec::new(),
            time: now_ms,
            run_every_ms,
        };
        proof {
            assert(r@.effects =~= Seq::<EffectKindV>::empty());
        }
        r
    }

    /// The pipeline with one more effect appended.
    pub fn with_effect(self, effect: EffectKind) -> (r: TextEffect)
        ensures
            r@ == (TextEffectV { effects: self@.effects.push(effect@), ..self@ }),
    {
        let ghost v0 = self@.effects;
        let ghost ev = effect@;
        let mut this = self;
        this.effects.push(effect);
        proof {
            assert(this@.effects =~= v0.push(ev));
        }
        this
    }

    /// Replaces the remembered output without drawing.
    pub fn override_last_drawn(&mut self, text: String)
        ensures
            final(self)@ == (TextEffectV { last_drawn: text@, ..old(self)@ }),
    {
        self.last_drawn = text;
    }

    /// Whether any effect in the pipeline is active.
    pub fn has_active_effects(&self) -> (r: bool)
        ensures
            r == exists|i: int|
                0 <= i < self@.effects.len() && spec_effect_active(self@.effects[i]),
    {
        let n = self.effects.len();
        let mut i: usize = 0;
        while i < n
            invariant
                i <= n,
                n == self@.effects.len(),
                forall|k: int| 0 <= k < i ==> !spec_effect_active(self@.effects[k]),
            decreases n - i,
        {
            if self.effects[i].is_active() {
                proof {
                    assert(0 <= i < self@.effects.len() && spec_effect_active(
                        self@.effects[i as int],
                    ));
                }
                return true;
            }
            i = i + 1;
        }
        false
    }

    /// Draws one line of text: within `run_every_ms` of the last draw the
    /// remembered output is repeated and nothing changes; otherwise every
    /// effect is applied in order, and the result is remembered along with
    /// the draw time.
    pub fn draw(&mut self, text: &str, now_ms: u128) -> (r: String)
        ensures
            (final(self)@, r@) == spec_draw(old(self)@, text@, now_ms),
    {
        let elapsed: u128 = if now_ms >= self.time {
            now_ms - self.time
        } else {
            0
        };
        if elapsed < self.run_every_ms as u128 {
            return self.last_drawn.clone();
        }
        self.time = now_ms;
        let ghost v0 = old(self)@.effects;
        let ghost t0 = text@;
        let mut result = String::from_str(text);
        let n = self.effects.len();
        let mut i: usize = 0;
        proof {
            assert(self@.effects =~= v0);
            assert(v0.skip(0) =~= v0);
            assert(self@.effects.take(0) + spec_apply_chain(v0, t0).0 =~= spec_apply_chain(
                v0,
                t0,
            ).0);
        }
        while i < n
            invariant
                i <= n,
                n == self@.effects.len(),
                v0.len() == n,
                self@.time == now_ms,
                self@.run_every_ms == old(self)@.run_every_ms,
                forall|k: int| i <= k < n ==> self@.effects[k] == v0[k],
                spec_apply_chain(v0, t0).0 == self@.effects.take(i as int) + spec_apply_chain(
                    v0.skip(i as int),
                    result@,
                ).0,
                spec_apply_chain(v0, t0).1 == spec_apply_chain(v0.skip(i as int), result@).1,
            decreases n - i,
        {
            let ghost pre = self@.effects;
            let ghost tpre = result@;
            result = self.effects[i].apply(result);
            proof {
                assert(self@.effects =~= pre.update(i as int, self@.effects[i as int]));
                assert(v0.skip(i as int)[0] == v0[i as int]);
                assert(v0.skip(i as int).drop_first() =~= v0.skip(i + 1));
                assert((self@.effects[i as int], result@) == spec_effect_apply(
                    v0[i as int],
                    tpre,
                ));
                assert(self@.effects.take(i + 1) =~= self@.effects.take(i as int) + seq![
                    self@.effects[i as int],
                ]);
                assert(spec_apply_chain(v0, t0).0 =~= self@.effects.take(i + 1)
                    + spec_apply_chain(v0.skip(i + 1), result@).0);
            }
            i = i + 1;
        }
        self.last_drawn = result.clone();
        proof {
            assert(v0.skip(n as int).len() == 0);
            assert(self@.effects.take(n as int) =~= self@.effects);
            assert(spec_apply_chain(v0, t0).0 =~= self@.effects);
            assert(spec_apply_chain(v0, t0).1 == result@);
            assert(self@ == (TextEffectV {
                last_drawn: spec_apply_chain(v0, t0).1,
                effects: spec_apply_chain(v0, t0).0,
                time: now_ms,
                run_every_ms: old(self)@.run_every_ms,
            }));
        }
        result
    }
}

} // verus!
