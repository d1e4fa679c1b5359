//! The position timer: one simulated playback clock per known source,
//! advanced on a fixed cadence while playing, producing synthetic tick
//! events.
//!
//! The store is a pure state machine. The surrounding process sleeps for
//! the tick interval, feeds playback/seek/rate events in, and publishes
//! the tick events that `advance_all` returns.

use vstd::prelude::*;
use crate::player_timer::{spec_advanced_pos, PlayerTimer, PlayerTimerV};

verus! {

/// One source's entry in the store.
pub struct TimerEntry {
    pub id: String,
    pub timer: PlayerTimer,
}

pub struct TimerEntryV {
    pub id: Seq<char>,
    pub timer: PlayerTimerV,
}

impl View for TimerEntry {
    type V = TimerEntryV;

    open spec fn view(&self) -> TimerEntryV {
        TimerEntryV { id: self.id@, timer: self.timer@ }
    }
}

/// A synthetic position-advance event, one per playing source and tick.
pub struct TickEvent {
    pub player_id: String,
    pub position: u128,
}

pub struct TickEventV {
    pub player_id: Seq<char>,
    pub position: u128,
}

impl View for TickEvent {
    type V = TickEventV;

    open spec fn view(&self) -> TickEventV {
        TickEventV { player_id: self.player_id@, position: self.position }
    }
}

/// The views of a vector of tick events.
pub open spec fn tick_views(r: Seq<TickEvent>) -> Seq<TickEventV> {
    Seq::new(r.len(), |i: int| r[i]@)
}

/// The tick events produced by one advance over these entries: one per
/// playing entry, in store order, carrying the entry's position.
pub open spec fn spec_ticks_of(s: Seq<TimerEntryV>) -> Seq<TickEventV>
    decreases s.len(),
{
    if s.len() == 0 {
        Seq::empty()
    } else {
        let head = if s[0].timer.playing {
            seq![TickEventV { player_id: s[0].id, position: s[0].timer.position }]
        } else {
            Seq::<TickEventV>::empty()
        };
        head + spec_ticks_of(s.drop_first())
    }
}

proof fn lemma_ticks_of_push(s: Seq<TimerEntryV>, e: TimerEntryV)
    ensures
        spec_ticks_of(s.push(e)) == spec_ticks_of(s) + (if e.timer.playing {
            seq![TickEventV { player_id: e.id, position: e.timer.position }]
        } else {
            Seq::<TickEventV>::empty()
        }),
    decreases s.len(),
{
    let tail = if e.timer.playing {
        seq![TickEventV { player_id: e.id, position: e.timer.position }]
    } else {
        Seq::<TickEventV>::empty()
    };
    if s.len() == 0 {
        assert(s.push(e).drop_first() =~= s);
        assert(spec_ticks_of(s.push(e)) =~= spec_ticks_of(s) + tail);
    } else {
        assert(s.push(e).drop_first() =~= s.drop_first().push(e));
        lemma_ticks_of_push(s.drop_first(), e);
        assert(spec_ticks_of(s.push(e)) =~= spec_ticks_of(s) + tail);
    }
}

/// Every source id names at most one entry.
pub open spec fn timer_ids_unique(s: Seq<TimerEntryV>) -> bool {
    forall|i: int, j: int| 0 <= i < j < s.len() ==> s[i].id != s[j].id
}

/// Some entry in `s` belongs to the source `id`.
pub open spec fn timer_contains(s: Seq<TimerEntryV>, id: Seq<char>) -> bool {
    exists|i: int| 0 <= i < s.len() && s[i].id == id
}

/// The index of the entry for `id` (unique when ids are distinct).
pub open spec fn timer_idx_of(s: Seq<TimerEntryV>, id: Seq<char>) -> int {
    choose|i: int| 0 <= i < s.len() && s[i].id == id
}

/// The entry created for a source on first reference: a stopped clock at
/// position zero and normal rate.
pub open spec fn spec_fresh_entry(id: Seq<char>) -> TimerEntryV {
    TimerEntryV {
        id,
        timer: PlayerTimerV { playing: false, position: 0, rate_milli: 1000, last_update: 0 },
    }
}

/// The entries after an event for `id` whose effect on the source's timer
/// record is `f`: the record is created on first reference, then updated
/// in place.
pub open spec fn spec_apply_event(
    s: Seq<TimerEntryV>,
    id: Seq<char>,
    f: spec_fn(PlayerTimerV) -> PlayerTimerV,
) -> Seq<TimerEntryV> {
    let base = if timer_contains(s, id) {
        s
    } else {
        s.push(spec_fresh_entry(id))
    };
    let i = if timer_contains(s, id) {
        timer_idx_of(s, id)
    } else {
        s.len() as int
    };
    base.update(i, TimerEntryV { id: base[i].id, timer: f(base[i].timer) })
}

/// The timer store: one entry per known source, and the fixed cadence at
/// which playing entries advance.
pub struct PositionTimer {
    entries: Vec<TimerEntry>,
    tick_interval_ms: u64,
}

pub struct PositionTimerV {
    pub entries: Seq<TimerEntryV>,
    pub tick_interval_ms: u64,
}

impl View for PositionTimer {
    type V = PositionTimerV;

    closed spec fn view(&self) -> PositionTimerV {
        PositionTimerV {
            entries: Seq::new(self.entries@.len(), |i: int| self.entries@[i]@),
            tick_interval_ms: self.tick_interval_ms,
        }
    }
}

impl PositionTimer {
    /// An empty store advancing at the given cadence.
    pub fn new(tick_interval_ms: u64) -> (r: PositionTimer)
        ensures
            r@.entries == Seq::<TimerEntryV>::empty(),
            r@.tick_interval_ms == tick_interval_ms,
            r.wf(),
    {
        let r = PositionTimer { entries: Vec::new(), tick_interval_ms };
        proof {
            assert(r@.entries =~= Seq::<TimerEntryV>::empty());
        }
        r
    }

    /// Well-formed: every source id names at most one entry.
    pub open spec fn wf(&self) -> bool {
        timer_ids_unique(self@.entries)
    }

    /// The index of the entry for this source, if any.
    fn find_entry(&self, player_id: &String) -> (r: Option<usize>)
        ensures
            match r {
                Some(i) => i < self@.entries.len() && self@.entries[i as int].id == player_id@,
                None => !timer_contains(self@.entries, player_id@),
            },
    {
        let n = self.entries.len();
        let mut i: usize = 0;
        while i < n
            invariant
                i <= n,
                n == self@.entries.len(),
                forall|k: int| 0 <= k < i ==> self@.entries[k].id != player_id@,
            decreases n - i,
        {
            if self.entries[i].id == *player_id {
                return Some(i);
            }
            i = i + 1;
        }
        None
    }

    /// The index of the entry for this source, creating a fresh stopped
    /// entry on first reference.
    fn find_or_create(&mut self, player_id: &String) -> (r: usize)
        requires
            old(self).wf(),
        ensures
            final(self).wf(),
            final(self)@.tick_interval_ms == old(self)@.tick_interval_ms,
            r < final(self)@.entries.len(),
            final(self)@.entries[r as int].id == player_id@,
            r as int == (if timer_contains(old(self)@.entries, player_id@) {
                timer_idx_of(old(self)@.entries, player_id@)
            } else {
                old(self)@.entries.len() as int
            }),
            final(self)@.entries == (if timer_contains(old(self)@.entries, player_id@) {
                old(self)@.entries
            } else {
                old(self)@.entries.push(spec_fresh_entry(player_id@))
            }),
    {
        match self.find_entry(player_id) {
            Some(i) => {
                proof {
                    let s = self@.entries;
                    assert(timer_contains(s, player_id@));
                    let w = timer_idx_of(s, player_id@);
                    assert(0 <= w < s.len() && s[w].id == player_id@);
                    assert(w == i) by {
                        if w != i {
                            assert(s[w].id != s[i as int].id);
                        }
                    }
                }
                i
            },
            None => {
                let entry = TimerEntry { id: player_id.clone(), timer: PlayerTimer::new() };
                self.entries.push(entry);
                proof {
                    let s0 = old(self)@.entries;
                    assert(self@.entries =~= s0.push(spec_fresh_entry(player_id@)));
                    assert(timer_ids_unique(self@.entries)) by {
                        assert(forall|k: int| 0 <= k < s0.len() ==> self@.entries[k] == s0[k]);
                    }
                }
                self.entries.len() - 1
            },
        }
    }

    /// Applies a playback-status event: marks the source's clock running
    /// or stopped, creating its entry on first reference.
    pub fn handle_playback(&mut self, player_id: &String, playing: bool)
        requires
            old(self).wf(),
        ensures
            final(self).wf(),
            final(self)@.tick_interval_ms == old(self)@.tick_interval_ms,
            final(self)@.entries == spec_apply_event(
                old(self)@.entries,
                player_id@,
                |t: PlayerTimerV| PlayerTimerV { playing, ..t },
            ),
    {
        let i = self.find_or_create(player_id);
        let ghost base = self@.entries;
        self.entries[i].timer.set_playing(playing);
        proof {
            assert(self@.entries =~= base.update(
                i as int,
                TimerEntryV {
                    id: base[i as int].id,
                    timer: PlayerTimerV { playing, ..base[i as int].timer },
                },
            ));
            assert(timer_ids_unique(self@.entries)) by {
                assert(forall|k: int|
                    0 <= k < self@.entries.len() ==> self@.entries[k].id == base[k].id);
            }
        }
    }

    /// Applies a seek event: an authoritative position correction for the
    /// source's clock, creating its entry on first reference.
    pub fn handle_seek(&mut self, player_id: &String, position_us: u128)
        requires
            old(self).wf(),
        ensures
            final(self).wf(),
            final(self)@.tick_interval_ms == old(self)@.tick_interval_ms,
            final(self)@.entries == spec_apply_event(
                old(self)@.entries,
                player_id@,
                |t: PlayerTimerV| PlayerTimerV { position: position_us, ..t },
            ),
    {
        let i = self.find_or_create(player_id);
        let ghost base = self@.entries;
        self.entries[i].timer.set_position(position_us);
        proof {
            assert(self@.entries =~= base.update(
                i as int,
                TimerEntryV {
                    id: base[i as int].id,
                    timer: PlayerTimerV { position: position_us, ..base[i as int].timer },
                },
            ));
            assert(timer_ids_unique(self@.entries)) by {
                assert(forall|k: int|
                    0 <= k < self@.entries.len() ==> self@.entries[k].id == base[k].id);
            }
        }
    }

    /// Applies a rate event: sets how fast the source's clock advances,
    /// creating its entry on first reference. A reported rate of exactly
    /// `0` is kept as stored but reads as normal speed when advancing.
    pub fn handle_rate(&mut self, player_id: &String, rate_milli: u32)
        requires
            old(self).wf(),
        ensures
            final(self).wf(),
            final(self)@.tick_interval_ms == old(self)@.tick_interval_ms,
            final(self)@.entries == spec_apply_event(
                old(self)@.entries,
                player_id@,
                |t: PlayerTimerV| PlayerTimerV { rate_milli, ..t },
            ),
    {
        let i = self.find_or_create(player_id);
        let ghost base = self@.entries;
        self.entries[i].timer.set_rate(rate_milli);
        proof {
            assert(self@.entries =~= base.update(
                i as int,
                TimerEntryV {
                    id: base[i as int].id,
                    timer: PlayerTimerV { rate_milli, ..base[i as int].timer },
                },
            ));
            assert(timer_ids_unique(self@.entries)) by {
                assert(forall|k: int|
                    0 <= k < self@.entries.len() ==> self@.entries[k].id == base[k].id);
            }
        }
    }

    /// Whether any source's clock is currently running. When none is, the
    /// surrounding loop may block instead of ticking.
    pub fn any_playing(&self) -> (r: bool)
        ensures
            r == exists|i: int| 0 <= i < self@.entries.len() && self@.entries[i].timer.playing,
    {
        let n = self.entries.len();
        let mut i: usize = 0;
        while i < n
            invariant
                i <= n,
                n == self@.entries.len(),
                forall|k: int| 0 <= k < i ==> !self@.entries[k].timer.playing,
            decreases n - i,
        {
            if self.entries[i].timer.is_playing() {
                proof {
                    assert(0 <= i < self@.entries.len() && self@.entries[i as int].timer.playing);
                }
                return true;
            }
            i = i + 1;
        }
        false
    }

    /// Advances every playing clock by one tick interval at the current
    /// rate, stamping `now_ms`, and returns one tick event per playing
    /// source, in store order, with the advanced position. Stopped clocks
    /// are untouched.
    pub fn advance_all(&mut self, now_ms: u64) -> (r: Vec<TickEvent>)
        ensures
            final(self)@.tick_interval_ms == old(self)@.tick_interval_ms,
            final(self)@.entries.len() == old(self)@.entries.len(),
            forall|i: int|
                0 <= i < old(self)@.entries.len() && old(self)@.entries[i].timer.playing
                    ==> final(self)@.entries[i] == (TimerEntryV {
                    id: old(self)@.entries[i].id,
                    timer: PlayerTimerV {
                        position: spec_advanced_pos(
                            old(self)@.entries[i].timer.position,
                            old(self)@.entries[i].timer.rate_milli,
                            old(self)@.tick_interval_ms,
                        ),
                        last_update: now_ms,
                        ..old(self)@.entries[i].timer
                    },
                }),
            forall|i: int|
                0 <= i < old(self)@.entries.len() && !old(self)@.entries[i].timer.playing
                    ==> final(self)@.entries[i] == old(self)@.entries[i],
            tick_views(r@) == spec_ticks_of(final(self)@.entries),
            old(self).wf() ==> final(self).wf(),
    {
        let interval = self.tick_interval_ms;
        let n = self.entries.len();
        let mut out: Vec<TickEvent> = Vec::new();
        let mut i: usize = 0;
        proof {
            assert(tick_views(out@) =~= spec_ticks_of(self@.entries.take(0)));
        }
        while i < n
            invariant
                i <= n,
                n == self@.entries.len(),
                n == old(self)@.entries.len(),
                interval == old(self)@.tick_interval_ms,
                self@.tick_interval_ms == old(self)@.tick_interval_ms,
                forall|k: int| i <= k < n ==> self@.entries[k] == old(self)@.entries[k],
                forall|k: int|
                    0 <= k < i && old(self)@.entries[k].timer.playing ==> self@.entries[k]
                        == (TimerEntryV {
                        id: old(self)@.entries[k].id,
                        timer: PlayerTimerV {
                            position: spec_advanced_pos(
                                old(self)@.entries[k].timer.position,
                                old(self)@.entries[k].timer.rate_milli,
                                interval,
                            ),
                            last_update: now_ms,
                            ..old(self)@.entries[k].timer
                        },
                    }),
                forall|k: int|
                    0 <= k < i && !old(self)@.entries[k].timer.playing ==> self@.entries[k]
                        == old(self)@.entries[k],
                tick_views(out@) == spec_ticks_of(self@.entries.take(i as int)),
            decreases n - i,
        {
            let ghost pre_entries = self@.entries;
            if self.entries[i].timer.is_playing() {
                self.entries[i].timer.tick(interval, now_ms);
                let tick = TickEvent {
                    player_id: self.entries[i].id.clone(),
                    position: self.entries[i].timer.position(),
                };
                out.push(tick);
                proof {
                    assert(self@.entries =~= pre_entries.update(i as int, self@.entries[i as int]));
                }
            }
            proof {
                let cur = self@.entries;
                assert(cur.take(i + 1) =~= cur.take(i as int).push(cur[i as int]));
                assert(cur.take(i as int) =~= pre_entries.take(i as int));
                lemma_ticks_of_push(cur.take(i as int), cur[i as int]);
                assert(tick_views(out@) =~= spec_ticks_of(cur.take(i + 1)));
            }
            i = i + 1;
        }
        proof {
            assert(self@.entries.take(n as int) =~= self@.entries);
            assert(timer_ids_unique(old(self)@.entries) ==> timer_ids_unique(self@.entries)) by {
                assert(forall|k: int|
                    0 <= k < self@.entries.len() ==> self@.entries[k].id
                        == old(self)@.entries[k].id);
            }
        }
        out
    }
}

} // verus!
