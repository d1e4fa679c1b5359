//! The reconciliation engine: maintains one record per source, decides
//! which source is currently active, and derives the canonical state to
//! publish.
//!
//! The engine is a pure state machine. Out-of-band lookup results and
//! timestamps are handed in as arguments; the surrounding process performs
//! the lookups and publishes the returned canonical states.

use vstd::prelude::*;
use crate::mpris::{MprisIdentity, MprisMetadata, MprisPlayback, MprisSeeked};
use crate::player_client::{spec_client_playing, PlayerClient, PlayerClientV};
use crate::player_state::{opt_state_view, spec_from_mpris, PlayerState, PlayerStateV};

verus! {

/// Some record in `s` belongs to the source `id`.
pub open spec fn contains_id(s: Seq<PlayerClientV>, id: Seq<char>) -> bool {
    exists|i: int| 0 <= i < s.len() && s[i].metadata.player_id == id
}

/// The index of the record for `id` (unique when ids are distinct).
pub open spec fn idx_of(s: Seq<PlayerClientV>, id: Seq<char>) -> int {
    choose|i: int| 0 <= i < s.len() && s[i].metadata.player_id == id
}

/// Every source id names at most one record.
pub open spec fn ids_unique(s: Seq<PlayerClientV>) -> bool {
    forall|i: int, j: int|
        0 <= i < j < s.len() ==> s[i].metadata.player_id != s[j].metadata.player_id
}

/// Some record's source is actively playing.
pub open spec fn any_playing(s: Seq<PlayerClientV>) -> bool {
    exists|i: int| 0 <= i < s.len() && spec_client_playing(s[i])
}

/// The record at `i` is the selected active player: it is playing, and it
/// has the most recent activity timestamp among playing records, ties
/// going to the record enumerated first.
pub open spec fn is_selected(s: Seq<PlayerClientV>, i: int) -> bool {
    &&& 0 <= i < s.len()
    &&& spec_client_playing(s[i])
    &&& forall|j: int|
        0 <= j < s.len() && spec_client_playing(s[j]) ==> (s[j].last_updated
            < s[i].last_updated || (s[j].last_updated == s[i].last_updated && i <= j))
}

/// A metadata update for the record at `i` is published when the source is
/// itself playing, or when no other source with a more recent activity
/// timestamp is actively playing.
pub open spec fn qualifies(s: Seq<PlayerClientV>, i: int) -> bool {
    spec_client_playing(s[i]) || !(exists|j: int|
        0 <= j < s.len() && spec_client_playing(s[j]) && s[j].last_updated > s[i].last_updated)
}

/// The canonical state derived from one record.
pub open spec fn spec_canonical(r: PlayerClientV) -> Option<PlayerStateV> {
    spec_from_mpris(r.player_name, r.metadata, r.playback_state, r.current_position)
}

/// The record created for a freshly discovered source.
pub open spec fn spec_fresh_record(
    name: Seq<char>,
    m: crate::mpris::MprisMetadataV,
    playback: Option<crate::mpris::MprisPlaybackV>,
    now: u64,
) -> PlayerClientV {
    PlayerClientV {
        player_name: name,
        metadata: m,
        playback_state: playback,
        current_position: 0,
        last_updated: now,
        last_tick: None,
    }
}

/// What the out-of-band queries for an unknown source return on success:
/// the source's display name, its current metadata, and, where the source
/// answered, its current playback status to backfill the fresh record.
pub struct PlayerLookup {
    pub identity: MprisIdentity,
    pub metadata: MprisMetadata,
    pub playback: Option<MprisPlayback>,
}

/// The view of a lookup's optional playback report.
pub open spec fn spec_lookup_playback(l: PlayerLookup) -> Option<crate::mpris::MprisPlaybackV> {
    match l.playback {
        Some(p) => Some(p@),
        None => None,
    }
}

/// The reconciliation engine's state: one record per known source.
pub struct PlayerManager {
    players: Vec<PlayerClient>,
}

impl View for PlayerManager {
    type V = Seq<PlayerClientV>;

    closed spec fn view(&self) -> Seq<PlayerClientV> {
        Seq::new(self.players@.len(), |i: int| self.players@[i]@)
    }
}

impl PlayerManager {
    /// An engine that knows no sources yet.
    pub fn new() -> (r: PlayerManager)
        ensures
            r@ == Seq::<PlayerClientV>::empty(),
            r.wf(),
    {
        let r = PlayerManager { players: Vec::new() };
        proof {
            assert(r@ =~= Seq::<PlayerClientV>::empty());
        }
        r
    }

    /// Well-formed: every source id names at most one record.
    pub open spec fn wf(&self) -> bool {
        ids_unique(self@)
    }

    /// The number of known sources.
    pub fn len(&self) -> (r: usize)
        ensures
            r == self@.len(),
    {
        self.players.len()
    }

    /// Whether a record for this source exists. An event for a source
    /// without a record requires exactly one out-of-band lookup before the
    /// event can be applied.
    pub fn has_player(&self, player_id: &String) -> (r: bool)
        ensures
            r == contains_id(self@, player_id@),
    {
        match self.find_player(player_id) {
            Some(_) => true,
            None => false,
        }
    }

    /// The index of the record for this source, if any.
    fn find_player(&self, player_id: &String) -> (r: Option<usize>)
        ensures
            match r {
                Some(i) => i < self@.len() && self@[i as int].metadata.player_id == player_id@,
                None => !contains_id(self@, player_id@),
            },
    {
        let n = self.players.len();
        let mut i: usize = 0;
        while i < n
            invariant
                i <= n,
                n == self@.len(),
                forall|k: int| 0 <= k < i ==> self@[k].metadata.player_id != player_id@,
            decreases n - i,
        {
            if self.players[i].get_id() == *player_id {
                return Some(i);
            }
            i = i + 1;
        }
        None
    }

    /// The index of the selected active player: playing, most recent
    /// activity timestamp, ties to the record enumerated first. `None`
    /// exactly when no record is playing.
    fn find_active(&self) -> (r: Option<usize>)
        ensures
            match r {
                Some(i) => is_selected(self@, i as int),
                None => !any_playing(self@),
            },
    {
        let n = self.players.len();
        let mut best: Option<usize> = None;
        let mut j: usize = 0;
        while j < n
            invariant
                j <= n,
                n == self@.len(),
                match best {
                    Some(b) => b < j && spec_client_playing(self@[b as int]) && forall|k: int|
                        0 <= k < j && spec_client_playing(self@[k]) ==> (self@[k].last_updated
                            < self@[b as int].last_updated || (self@[k].last_updated
                            == self@[b as int].last_updated && b <= k)),
                    None => forall|k: int| 0 <= k < j ==> !spec_client_playing(self@[k]),
                },
            decreases n - j,
        {
            if self.players[j].playing() {
                match best {
                    None => {
                        best = Some(j);
                    },
                    Some(b) => {
                        if self.players[j].last_updated() > self.players[b].last_updated() {
                            best = Some(j);
                        }
                    },
                }
            }
            j = j + 1;
        }
        best
    }

    /// The canonical state derived from the record at `i`.
    fn emit_for(&self, i: usize) -> (r: Option<PlayerState>)
        requires
            i < self@.len(),
        ensures
            opt_state_view(r) == spec_canonical(self@[i as int]),
    {
        let name = self.players[i].name().clone();
        let metadata = self.players[i].metadata();
        let playback = self.players[i].playback_state();
        let position = self.players[i].position();
        PlayerState::from_mpris_data(name, metadata, playback, position)
    }

    /// Whether a metadata update for the record at `i` is published.
    fn qualifies_exec(&self, i: usize) -> (r: bool)
        requires
            i < self@.len(),
        ensures
            r == qualifies(self@, i as int),
    {
        if self.players[i].playing() {
            return true;
        }
        let t = self.players[i].last_updated();
        let n = self.players.len();
        let mut j: usize = 0;
        while j < n
            invariant
                j <= n,
                n == self@.len(),
                i < n,
                !spec_client_playing(self@[i as int]),
                t == self@[i as int].last_updated,
                forall|k: int|
                    0 <= k < j ==> !(spec_client_playing(self@[k]) && self@[k].last_updated > t),
            decreases n - j,
        {
            if self.players[j].playing() && self.players[j].last_updated() > t {
                proof {
                    assert(0 <= j < self@.len() && spec_client_playing(self@[j as int])
                        && self@[j as int].last_updated > self@[i as int].last_updated);
                }
                return false;
            }
            j = j + 1;
        }
        true
    }

    /// Applies a metadata event.
    ///
    /// For a known source the record's metadata is replaced; the canonical
    /// state is returned when the source qualifies. For an unknown source,
    /// `identity` carries the result of the single out-of-band lookup: on
    /// `None` the event is dropped without creating a record; otherwise a
    /// record is created with the resolved display name.
    pub fn handle_metadata_event(
        &mut self,
        metadata: MprisMetadata,
        identity: Option<MprisIdentity>,
        now: u64,
    ) -> (r: Option<PlayerState>)
        requires
            old(self).wf(),
        ensures
            final(self).wf(),
            contains_id(old(self)@, metadata@.player_id) ==> {
                let i = idx_of(old(self)@, metadata@.player_id);
                &&& final(self)@ == old(self)@.update(
                    i,
                    PlayerClientV { metadata: metadata@, ..old(self)@[i] },
                )
                &&& opt_state_view(r) == (if qualifies(final(self)@, i) {
                    spec_canonical(final(self)@[i])
                } else {
                    Option::<PlayerStateV>::None
                })
            },
            !contains_id(old(self)@, metadata@.player_id) && identity is None ==> final(self)@
                == old(self)@ && r is None,
            !contains_id(old(self)@, metadata@.player_id) ==> (identity matches Some(idt) ==> {
                let rec = spec_fresh_record(idt@.identity, metadata@, None, now);
                &&& final(self)@ == old(self)@.push(rec)
                &&& opt_state_view(r) == (if qualifies(final(self)@, old(self)@.len() as int) {
                    spec_canonical(rec)
                } else {
                    Option::<PlayerStateV>::None
                })
            }),
    {
        let ghost s0 = self@;
        match self.find_player(&metadata.player_id) {
            Some(i) => {
                let ghost id = metadata@.player_id;
                let ghost mv = metadata@;
                proof {
                    assert(contains_id(s0, id));
                    let w = idx_of(s0, id);
                    assert(0 <= w < s0.len() && s0[w].metadata.player_id == id);
                    assert(w == i) by {
                        if w != i {
                            assert(s0[w].metadata.player_id != s0[i as int].metadata.player_id);
                        }
                    }
                }
                self.players[i].update_metadata(metadata);
                proof {
                    assert(self@ =~= s0.update(
                        i as int,
                        PlayerClientV { metadata: mv, ..s0[i as int] },
                    ));
                    assert(self.wf()) by {
                        assert(forall|k: int|
                            0 <= k < self@.len() ==> self@[k].metadata.player_id
                                == s0[k].metadata.player_id);
                    }
                }
                if self.qualifies_exec(i) {
                    self.emit_for(i)
                } else {
                    None
                }
            },
            None => {
                match identity {
                    Some(idt) => {
                        let rec = PlayerClient::new(idt.identity, metadata, now);
                        self.players.push(rec);
                        let i = self.players.len() - 1;
                        proof {
                            assert(self@ =~= s0.push(self@[i as int]));
                            assert(self.wf()) by {
                                assert(forall|k: int|
                                    0 <= k < s0.len() ==> self@[k] == s0[k]);
                                assert(!contains_id(s0, self@[i as int].metadata.player_id));
                            }
                        }
                        if self.qualifies_exec(i) {
                            self.emit_for(i)
                        } else {
                            None
                        }
                    },
                    None => None,
                }
            },
        }
    }

    /// Applies a playback-status event.
    ///
    /// The record's status and activity timestamp are updated (for an
    /// unknown source, after the out-of-band `lookup`; a failed lookup
    /// drops the event). If the source is now playing its canonical state
    /// is returned; otherwise the selected active player's canonical state
    /// is returned, or `None` when no source is playing.
    pub fn handle_playback_event(
        &mut self,
        playback: MprisPlayback,
        lookup: Option<PlayerLookup>,
        now: u64,
    ) -> (r: Option<PlayerState>)
        requires
            old(self).wf(),
            lookup matches Some(l) ==> l.metadata@.player_id == playback@.player_id,
        ensures
            final(self).wf(),
            !contains_id(old(self)@, playback@.player_id) && lookup is None ==> final(self)@
                == old(self)@ && r is None,
            (contains_id(old(self)@, playback@.player_id) || lookup is Some) ==> {
                let i = if contains_id(old(self)@, playback@.player_id) {
                    idx_of(old(self)@, playback@.player_id)
                } else {
                    old(self)@.len() as int
                };
                let s1 = if contains_id(old(self)@, playback@.player_id) {
                    old(self)@
                } else {
                    old(self)@.push(
                        spec_fresh_record(
                            lookup->0.identity@.identity,
                            lookup->0.metadata@,
                            spec_lookup_playback(lookup->0),
                            now,
                        ),
                    )
                };
                let rec = PlayerClientV {
                    playback_state: Some(playback@),
                    last_updated: now,
                    ..s1[i]
                };
                &&& final(self)@ == s1.update(i, rec)
                &&& spec_client_playing(rec) ==> opt_state_view(r) == spec_canonical(rec)
                &&& !spec_client_playing(rec) && any_playing(final(self)@) ==> exists|k: int|
                    is_selected(final(self)@, k) && opt_state_view(r) == spec_canonical(
                        final(self)@[k],
                    )
                &&& !spec_client_playing(rec) && !any_playing(final(self)@) ==> r is None
            },
    {
        let ghost s0 = self@;
        let i = match self.find_player(&playback.player_id) {
            Some(i) => {
                proof {
                    let id = playback@.player_id;
                    assert(contains_id(s0, id));
                    let w = idx_of(s0, id);
                    assert(w == i) by {
                        if w != i {
                            assert(s0[w].metadata.player_id != s0[i as int].metadata.player_id);
                        }
                    }
                }
                i
            },
            None => {
                match lookup {
                    Some(l) => {
                        let ghost fresh = spec_fresh_record(
                            l.identity@.identity,
                            l.metadata@,
                            spec_lookup_playback(l),
                            now,
                        );
                        let rec = PlayerClient::new(l.identity.identity, l.metadata, now);
                        self.players.push(rec);
                        let created = self.players.len() - 1;
                        if let Some(pb) = l.playback {
                            self.players[created].update_playback_state(pb, now);
                        }
                        proof {
                            assert(self@ =~= s0.push(fresh));
                        }
                        created
                    },
                    None => {
                        return None;
                    },
                }
            },
        };
        let ghost s1 = self@;
        proof {
            assert(ids_unique(s1)) by {
                if s1.len() > s0.len() {
                    assert(forall|k: int| 0 <= k < s0.len() ==> s1[k] == s0[k]);
                    assert(!contains_id(s0, s1[s0.len() as int].metadata.player_id));
                }
            }
        }
        self.players[i].update_playback_state(playback, now);
        proof {
            assert(self@ =~= s1.update(
                i as int,
                PlayerClientV {
                    playback_state: self@[i as int].playback_state,
                    last_updated: now,
                    ..s1[i as int]
                },
            ));
            assert(self.wf()) by {
                assert(forall|k: int|
                    0 <= k < self@.len() ==> self@[k].metadata.player_id
                        == s1[k].metadata.player_id);
            }
        }
        if self.players[i].playing() {
            self.emit_for(i)
        } else {
            match self.find_active() {
                Some(k) => self.emit_for(k),
                None => None,
            }
        }
    }

    /// Applies a seek event: an authoritative position correction.
    ///
    /// The record's position is replaced and its canonical state returned
    /// (for an unknown source, after the out-of-band `lookup`; a failed
    /// lookup drops the event).
    pub fn handle_seeked_event(
        &mut self,
        seeked: MprisSeeked,
        lookup: Option<PlayerLookup>,
        now: u64,
    ) -> (r: Option<PlayerState>)
        requires
            old(self).wf(),
            seeked.timestamp >= 0,
            lookup matches Some(l) ==> l.metadata@.player_id == seeked@.player_id,
        ensures
            final(self).wf(),
            !contains_id(old(self)@, seeked@.player_id) && lookup is None ==> final(self)@
                == old(self)@ && r is None,
            (contains_id(old(self)@, seeked@.player_id) || lookup is Some) ==> {
                let i = if contains_id(old(self)@, seeked@.player_id) {
                    idx_of(old(self)@, seeked@.player_id)
                } else {
                    old(self)@.len() as int
                };
                let s1 = if contains_id(old(self)@, seeked@.player_id) {
                    old(self)@
                } else {
                    old(self)@.push(
                        spec_fresh_record(
                            lookup->0.identity@.identity,
                            lookup->0.metadata@,
                            spec_lookup_playback(lookup->0),
                            now,
                        ),
                    )
                };
                let rec = PlayerClientV {
                    current_position: seeked@.timestamp as u128,
                    last_tick: Some(now),
                    ..s1[i]
                };
                &&& final(self)@ == s1.update(i, rec)
                &&& opt_state_view(r) == spec_canonical(rec)
            },
    {
        let ghost s0 = self@;
        let i = match self.find_player(&seeked.player_id) {
            Some(i) => {
                proof {
                    let id = seeked@.player_id;
                    let w = idx_of(s0, id);
                    assert(w == i) by {
                        if w != i {
                            assert(s0[w].metadata.player_id != s0[i as int].metadata.player_id);
                        }
                    }
                }
                i
            },
            None => {
                match lookup {
                    Some(l) => {
                        let ghost fresh = spec_fresh_record(
                            l.identity@.identity,
                            l.metadata@,
                            spec_lookup_playback(l),
                            now,
                        );
                        let rec = PlayerClient::new(l.identity.identity, l.metadata, now);
                        self.players.push(rec);
                        let created = self.players.len() - 1;
                        if let Some(pb) = l.playback {
                            self.players[created].update_playback_state(pb, now);
                        }
                        proof {
                            assert(self@ =~= s0.push(fresh));
                        }
                        created
                    },
                    None => {
                        return None;
                    },
                }
            },
        };
        let ghost s1 = self@;
        proof {
            assert(ids_unique(s1)) by {
                if s1.len() > s0.len() {
                    assert(forall|k: int| 0 <= k < s0.len() ==> s1[k] == s0[k]);
                    assert(!contains_id(s0, s1[s0.len() as int].metadata.player_id));
                }
            }
        }
        let position: u128 = seeked.timestamp as u128;
        self.players[i].update_position(position, now);
        proof {
            assert(self@ =~= s1.update(
                i as int,
                PlayerClientV {
                    current_position: position,
                    last_tick: Some(now),
                    ..s1[i as int]
                },
            ));
            assert(self.wf()) by {
                assert(forall|k: int|
                    0 <= k < self@.len() ==> self@[k].metadata.player_id
                        == s1[k].metadata.player_id);
            }
        }
        self.emit_for(i)
    }

    /// Applies a synthetic tick event: updates only the source's
    /// interpolated position, and returns its canonical state only when
    /// the source is presently the selected active player, so that ticks
    /// for background sources never overwrite the foreground display.
    /// A tick for an unknown source is ignored.
    pub fn handle_tick_event(&mut self, player_id: &String, position: u128, now: u64) -> (r:
        Option<PlayerState>)
        requires
            old(self).wf(),
        ensures
            final(self).wf(),
            !contains_id(old(self)@, player_id@) ==> final(self)@ == old(self)@ && r is None,
            contains_id(old(self)@, player_id@) ==> {
                let i = idx_of(old(self)@, player_id@);
                let rec = PlayerClientV {
                    current_position: position,
                    last_tick: Some(now),
                    ..old(self)@[i]
                };
                &&& final(self)@ == old(self)@.update(i, rec)
                &&& opt_state_view(r) == (if is_selected(final(self)@, i) {
                    spec_canonical(rec)
                } else {
                    Option::<PlayerStateV>::None
                })
            },
    {
        let ghost s0 = self@;
        let i = match self.find_player(player_id) {
            Some(i) => {
                proof {
                    let w = idx_of(s0, player_id@);
                    assert(w == i) by {
                        if w != i {
                            assert(s0[w].metadata.player_id != s0[i as int].metadata.player_id);
                        }
                    }
                }
                i
            },
            None => {
                return None;
            },
        };
        self.players[i].update_position(position, now);
        proof {
            assert(self@ =~= s0.update(
                i as int,
                PlayerClientV {
                    current_position: position,
                    last_tick: Some(now),
                    ..s0[i as int]
                },
            ));
            assert(self.wf()) by {
                assert(forall|k: int|
                    0 <= k < self@.len() ==> self@[k].metadata.player_id
                        == s0[k].metadata.player_id);
            }
        }
        match self.find_active() {
            Some(k) => {
                if k == i {
                    self.emit_for(i)
                } else {
                    proof {
                        if is_selected(self@, i as int) {
                            lemma_selected_unique(self@, k as int, i as int);
                        }
                    }
                    None
                }
            },
            None => None,
        }
    }
}

/// At most one record is the selected active player.
pub proof fn lemma_selected_unique(s: Seq<PlayerClientV>, i: int, j: int)
    requires
        is_selected(s, i),
        is_selected(s, j),
    ensures
        i == j,
{
    assert(s[i].last_updated == s[j].last_updated);
}

/// Whenever some record is playing, a selected active player exists: the
/// emitted canonical state always corresponds to a playing source with
/// the most recent activity timestamp, and no emission happens only when
/// no source is playing.
pub proof fn lemma_selected_exists(s: Seq<PlayerClientV>)
    requires
        any_playing(s),
    ensures
        exists|i: int| is_selected(s, i),
    decreases s.len(),
{
    let n = s.len() as int - 1;
    assert(0 <= n);
    let prefix = s.drop_last();
    assert(forall|k: int| 0 <= k < n ==> prefix[k] == s[k]);
    if any_playing(prefix) {
        lemma_selected_exists(prefix);
        let i = choose|i: int| is_selected(prefix, i);
        if spec_client_playing(s[n]) && s[n].last_updated > s[i].last_updated {
            assert(is_selected(s, n));
        } else {
            assert(is_selected(s, i)) by {
                assert(forall|j: int|
                    0 <= j < n && spec_client_playing(s[j]) ==> (s[j].last_updated
                        < s[i].last_updated || (s[j].last_updated == s[i].last_updated && i
                        <= j)));
            }
        }
    } else {
        assert(spec_client_playing(s[n])) by {
            let w = choose|w: int| 0 <= w < s.len() && spec_client_playing(s[w]);
            if w < n {
                assert(spec_client_playing(prefix[w]));
            }
        }
        assert(is_selected(s, n)) by {
            assert(forall|j: int|
                0 <= j < n ==> !spec_client_playing(s[j])) by {
                assert(forall|j: int| 0 <= j < n && spec_client_playing(s[j])
                    ==> spec_client_playing(prefix[j]));
            }
        }
    }
}

/// A source whose playback report just carried the newest activity
/// timestamp has the most recent activity timestamp among playing
/// records: the canonical state emitted right after a playing report
/// always belongs to a most recently active playing source.
pub proof fn lemma_playing_update_is_most_recent(s: Seq<PlayerClientV>, i: int, now: u64)
    requires
        0 <= i < s.len(),
        spec_client_playing(s[i]),
        s[i].last_updated == now,
        forall|j: int| 0 <= j < s.len() ==> s[j].last_updated <= now,
    ensures
        forall|j: int|
            0 <= j < s.len() && spec_client_playing(s[j]) ==> s[j].last_updated
                <= s[i].last_updated,
{
}

/// A tick for one source never changes which record is selected, nor the
/// canonical state of any other record: a tick for a non-active source
/// leaves the last published canonical state untouched.
pub proof fn lemma_tick_preserves_selection(
    s: Seq<PlayerClientV>,
    i: int,
    position: u128,
    now: u64,
)
    requires
        0 <= i < s.len(),
    ensures
        ({
            let s2 = s.update(
                i,
                PlayerClientV { current_position: position, last_tick: Some(now), ..s[i] },
            );
            &&& forall|k: int| is_selected(s, k) <==> is_selected(s2, k)
            &&& forall|k: int| 0 <= k < s.len() && k != i ==> spec_canonical(s2[k])
                == spec_canonical(s[k])
        }),
{
    let s2 = s.update(
        i,
        PlayerClientV { current_position: position, last_tick: Some(now), ..s[i] },
    );
    assert(forall|k: int|
        0 <= k < s.len() ==> spec_client_playing(s2[k]) == spec_client_playing(s[k])
            && s2[k].last_updated == s[k].last_updated);
}

/// Applying the same metadata event twice to an already known source is
/// idempotent: the second application leaves the state as it was, the
/// source qualifies both times or neither time, and the derived canonical
/// state is the same both times.
pub proof fn lemma_metadata_idempotent(s: Seq<PlayerClientV>, i: int, m: crate::mpris::MprisMetadataV)
    requires
        0 <= i < s.len(),
    ensures
        ({
            let s1 = s.update(i, PlayerClientV { metadata: m, ..s[i] });
            let s2 = s1.update(i, PlayerClientV { metadata: m, ..s1[i] });
            &&& s2 == s1
            &&& qualifies(s2, i) == qualifies(s1, i)
            &&& spec_canonical(s2[i]) == spec_canonical(s1[i])
        }),
{
    let s1 = s.update(i, PlayerClientV { metadata: m, ..s[i] });
    let s2 = s1.update(i, PlayerClientV { metadata: m, ..s1[i] });
    assert(s2 =~= s1);
}

} // verus!
