//! The rendering decisions: which effect pipeline each display field
//! carries, how a canonical state is turned into the output line, and the
//! machine-readable wrapper around it. Printing the line and listening on
//! the bus happen outside this library.

use vstd::prelude::*;
use vstd::string::{StrSliceExecFns, StringExecFns};
use crate::args::Args;
use crate::ellipsis::{Ellipsis, EllipsisV};
use crate::event_bus::EventBusHandle;
use crate::marquee::{Marquee, MarqueeV};
use crate::player_state::{PlayerState, PlayerStateV};
use crate::text::{replace_str, spec_replace, str_eq};
use crate::text_effect::{spec_draw, EffectKind, EffectKindV, TextEffect, TextEffectV};
use crate::utils::{ci_contains, ci_match_at, strip_until_match};

verus! {

/// The effect pipelines of the four display fields.
pub struct DisplayFields {
    pub title: TextEffect,
    pub artist: TextEffect,
    pub album: TextEffect,
    pub player: TextEffect,
}

pub struct DisplayFieldsV {
    pub title: TextEffectV,
    pub artist: TextEffectV,
    pub album: TextEffectV,
    pub player: TextEffectV,
}

impl View for DisplayFields {
    type V = DisplayFieldsV;

    open spec fn view(&self) -> DisplayFieldsV {
        DisplayFieldsV {
            title: self.title@,
            artist: self.artist@,
            album: self.album@,
            player: self.player@,
        }
    }
}

/// A field pipeline with no effects.
pub open spec fn spec_plain_field(speed: u32, now_ms: u128) -> TextEffectV {
    TextEffectV {
        last_drawn: Seq::<char>::empty(),
        effects: Seq::<EffectKindV>::empty(),
        time: now_ms,
        run_every_ms: speed,
    }
}

/// A field pipeline carrying one scrolling effect.
pub open spec fn spec_marquee_field(width: u16, speed: u32, now_ms: u128) -> TextEffectV {
    TextEffectV {
        effects: seq![
            EffectKindV::Marquee(
                MarqueeV {
                    text: Seq::<char>::empty(),
                    current_pos: 0,
                    max_width: width,
                    active: false,
                },
            ),
        ],
        ..spec_plain_field(speed, now_ms)
    }
}

/// A field pipeline carrying one truncating effect.
pub open spec fn spec_ellipsis_field(width: u16, speed: u32, now_ms: u128) -> TextEffectV {
    TextEffectV {
        effects: seq![
            EffectKindV::Ellipsis(
                EllipsisV { text: Seq::<char>::empty(), max_width: width, active: false },
            ),
        ],
        ..spec_plain_field(speed, now_ms)
    }
}

/// The style class of a canonical state: known playing, known paused, or
/// nothing known.
pub open spec fn spec_class(st: PlayerStateV) -> Seq<char> {
    match st.playing {
        Some(true) => "playing"@,
        Some(false) => "paused"@,
        None => "stopped"@,
    }
}

/// The machine-readable output line wrapping rendered text and class.
pub open spec fn spec_json(text: Seq<char>, class: Seq<char>) -> Seq<char> {
    "{\"text\": \""@ + text + "\", \"tooltip\": \"\", \"class\": \""@ + class + "\", \"alt\": \"\"}"@
}

/// The icon for a state: the pause icon while known to be playing, the
/// play icon otherwise.
pub open spec fn spec_icon(args: crate::args::ArgsV, playing: Option<bool>) -> Seq<char> {
    if playing == Some(true) {
        args.pause_icon
    } else {
        args.play_icon
    }
}

/// The fields after one value change: the named field's remembered output
/// is replaced, everything else is untouched; an unknown field name
/// changes nothing.
pub open spec fn spec_set_field(f: DisplayFieldsV, field: Seq<char>, value: Seq<char>)
    -> DisplayFieldsV {
    if field == "title"@ {
        DisplayFieldsV { title: TextEffectV { last_drawn: value, ..f.title }, ..f }
    } else if field == "artist"@ {
        DisplayFieldsV { artist: TextEffectV { last_drawn: value, ..f.artist }, ..f }
    } else if field == "album"@ {
        DisplayFieldsV { album: TextEffectV { last_drawn: value, ..f.album }, ..f }
    } else if field == "player"@ {
        DisplayFieldsV { player: TextEffectV { last_drawn: value, ..f.player }, ..f }
    } else {
        f
    }
}

/// One rendering pass: each field pipeline draws its part of the state,
/// and the drawn parts replace the placeholders in the template, in a
/// fixed order.
pub open spec fn spec_populate(
    args: crate::args::ArgsV,
    st: PlayerStateV,
    f: DisplayFieldsV,
    now_ms: u128,
) -> (DisplayFieldsV, Seq<char>) {
    let t = spec_draw(f.title, st.title, now_ms);
    let a = spec_draw(f.artist, st.artist, now_ms);
    let al = spec_draw(f.album, st.album, now_ms);
    let p = spec_draw(f.player, st.player_name, now_ms);
    let out = spec_replace(
        spec_replace(
            spec_replace(
                spec_replace(
                    spec_replace(args.format, "%icon%"@, spec_icon(args, st.playing)),
                    "%title%"@,
                    t.1,
                ),
                "%artist%"@,
                a.1,
            ),
            "%album%"@,
            al.1,
        ),
        "%player%"@,
        p.1,
    );
    (DisplayFieldsV { title: t.0, artist: a.0, album: al.0, player: p.0 }, out)
}

/// The renderer: holds the options and the bus handle its surroundings
/// listen on.
pub struct Display {
    pub args: Args,
    pub event_bus: EventBusHandle,
}

impl Display {
    pub fn new(args: Args, event_bus: EventBusHandle) -> (r: Display)
        ensures
            r.args@ == args@,
    {
        Display { args, event_bus }
    }

    /// The field pipelines chosen by the options: scrolling beats
    /// truncation for title and artist, album and player stay plain.
    pub fn init_fields(&self, now_ms: u128) -> (r: DisplayFields)
        ensures
            r@.album == spec_plain_field(self.args@.effect_speed, now_ms),
            r@.player == spec_plain_field(self.args@.effect_speed, now_ms),
            self.args@.marquee ==> r@.title == spec_marquee_field(
                self.args@.title_width as u16,
                self.args@.effect_speed,
                now_ms,
            ) && r@.artist == spec_marquee_field(
                self.args@.artist_width as u16,
                self.args@.effect_speed,
                now_ms,
            ),
            !self.args@.marquee && self.args@.ellipsis ==> r@.title == spec_ellipsis_field(
                self.args@.title_width as u16,
                self.args@.effect_speed,
                now_ms,
            ) && r@.artist == spec_ellipsis_field(
                self.args@.artist_width as u16,
                self.args@.effect_speed,
                now_ms,
            ),
            !self.args@.marquee && !self.args@.ellipsis ==> r@.title == spec_plain_field(
                self.args@.effect_speed,
                now_ms,
            ) && r@.artist == spec_plain_field(self.args@.effect_speed, now_ms),
    {
        let speed = self.args.effect_speed;
        let title: TextEffect;
        let artist: TextEffect;
        if self.args.marquee {
            title = TextEffect::new(speed, now_ms).with_effect(
                EffectKind::Marquee(Marquee::new(#[verifier::truncate] (self.args.title_width as u16))),
            );
            artist = TextEffect::new(speed, now_ms).with_effect(
                EffectKind::Marquee(Marquee::new(#[verifier::truncate] (self.args.artist_width as u16))),
            );
            proof {
                assert(title@.effects =~= spec_marquee_field(
                    self.args@.title_width as u16,
                    speed,
                    now_ms,
                ).effects);
                assert(artist@.effects =~= spec_marquee_field(
                    self.args@.artist_width as u16,
                    speed,
                    now_ms,
                ).effects);
            }
        } else if self.args.ellipsis {
            title = TextEffect::new(speed, now_ms).with_effect(
                EffectKind::Ellipsis(Ellipsis::new(#[verifier::truncate] (self.args.title_width as u16))),
            );
            artist = TextEffect::new(speed, now_ms).with_effect(
                EffectKind::Ellipsis(Ellipsis::new(#[verifier::truncate] (self.args.artist_width as u16))),
            );
            proof {
                assert(title@.effects =~= spec_ellipsis_field(
                    self.args@.title_width as u16,
                    speed,
                    now_ms,
                ).effects);
                assert(artist@.effects =~= spec_ellipsis_field(
                    self.args@.artist_width as u16,
                    speed,
                    now_ms,
                ).effects);
            }
        } else {
            title = TextEffect::new(speed, now_ms);
            artist = TextEffect::new(speed, now_ms);
        }
        DisplayFields {
            title,
            artist,
            album: TextEffect::new(speed, now_ms),
            player: TextEffect::new(speed, now_ms),
        }
    }

    /// Removes a leading "artist -" marker from the title, compared
    /// ignoring case, so the artist is not shown twice.
    pub fn sanitize_title(title: String, artist: &str) -> (r: String)
        ensures
            ci_contains(title@, artist@ + " -"@) ==> exists|i: int|
                {
                    &&& #[trigger] ci_match_at(title@, artist@ + " -"@, i)
                    &&& (forall|j: int| 0 <= j < i ==> !ci_match_at(title@, artist@ + " -"@, j))
                    &&& r@ == title@.subrange(i + artist@.len() + 2, title@.len() as int)
                },
            !ci_contains(title@, artist@ + " -"@) ==> r@ == title@,
    {
        let needle = String::from_str(artist).concat(" -");
        proof {
            reveal_strlit(" -");
            assert(needle@.len() == artist@.len() + 2);
        }
        let stripped = strip_until_match(needle.as_str(), title.as_str());
        String::from_str(stripped)
    }

    /// The style class of a canonical state.
    pub fn get_class(&self, state: &PlayerState) -> (r: &str)
        ensures
            r@ == spec_class(state@),
    {
        match state.playing {
            Some(true) => "playing",
            Some(false) => "paused",
            None => "stopped",
        }
    }

    /// Wraps rendered text and class in the machine-readable output line.
    pub fn format_json_output(&self, text: &str, class: &str) -> (r: String)
        ensures
            r@ == spec_json(text@, class@),
    {
        let mut out = String::from_str("{\"text\": \"");
        out.append(text);
        out.append("\", \"tooltip\": \"\", \"class\": \"");
        out.append(class);
        out.append("\", \"alt\": \"\"}");
        out
    }

    /// Replaces the named field's remembered output when the value
    /// changed; an unchanged value or an unknown field name changes
    /// nothing.
    pub fn set_text_effect_field(
        fields: &mut DisplayFields,
        old_value: &str,
        new_value: &str,
        field: &str,
    )
        ensures
            old_value@ == new_value@ ==> final(fields)@ == old(fields)@,
            old_value@ != new_value@ ==> final(fields)@ == spec_set_field(
                old(fields)@,
                field@,
                new_value@,
            ),
    {
        if str_eq(old_value, new_value) {
            return ;
        }
        if str_eq(field, "title") {
            fields.title.override_last_drawn(String::from_str(new_value));
        } else if str_eq(field, "artist") {
            fields.artist.override_last_drawn(String::from_str(new_value));
        } else if str_eq(field, "album") {
            fields.album.override_last_drawn(String::from_str(new_value));
        } else if str_eq(field, "player") {
            fields.player.override_last_drawn(String::from_str(new_value));
        }
    }

    /// One rendering pass over the template: each field pipeline draws its
    /// part of the state, and the drawn parts replace the placeholders.
    pub fn populate_using_placeholders(
        &self,
        player_state: &PlayerState,
        fields: &mut DisplayFields,
        now_ms: u128,
    ) -> (r: String)
        ensures
            (final(fields)@, r@) == spec_populate(self.args@, player_state@, old(fields)@, now_ms),
    {
        proof {
            reveal_strlit("%icon%");
            reveal_strlit("%title%");
            reveal_strlit("%artist%");
            reveal_strlit("%album%");
            reveal_strlit("%player%");
        }
        let icon = if match player_state.playing {
            Some(true) => true,
            _ => false,
        } {
            self.args.pause_icon.clone()
        } else {
            self.args.play_icon.clone()
        };
        let t = fields.title.draw(player_state.title.as_str(), now_ms);
        let a = fields.artist.draw(player_state.artist.as_str(), now_ms);
        let al = fields.album.draw(player_state.album.as_str(), now_ms);
        let p = fields.player.draw(player_state.player_name.as_str(), now_ms);
        let out = replace_str(self.args.format.as_str(), "%icon%", icon.as_str());
        let out = replace_str(out.as_str(), "%title%", t.as_str());
        let out = replace_str(out.as_str(), "%artist%", a.as_str());
        let out = replace_str(out.as_str(), "%album%", al.as_str());
        let out = replace_str(out.as_str(), "%player%", p.as_str());
        out
    }

    /// Renders one output line: a placeholder line while no canonical
    /// state has arrived yet, otherwise the populated template wrapped
    /// with the state's class.
    pub fn render(
        &self,
        player_state: &Option<PlayerState>,
        fields: &mut DisplayFields,
        now_ms: u128,
    ) -> (r: String)
        ensures
            player_state is None ==> final(fields)@ == old(fields)@ && r@ == spec_json(
                "Nothing playing"@,
                "stopped"@,
            ),
            player_state matches Some(st) ==> {
                let populated = spec_populate(self.args@, st@, old(fields)@, now_ms);
                &&& final(fields)@ == populated.0
                &&& r@ == spec_json(populated.1, spec_class(st@))
            },
    {
        match player_state {
            Some(st) => {
                let text = self.populate_using_placeholders(st, fields, now_ms);
                let class = self.get_class(st);
                self.format_json_output(text.as_str(), class)
            },
            None => self.format_json_output("Nothing playing", "stopped"),
        }
    }
}

} // verus!
