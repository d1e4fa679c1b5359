//! Decisions of the source monitor: classifying a decoded signal and
//! filtering senders against the whitelist. Listening on the wire and
//! decoding native messages happen outside this library; the decoded
//! header fields are handed in here.

use vstd::prelude::*;
use crate::args::Args;
use crate::event_bus::{EventBusHandle, EventType, EventTypeV};
use crate::text::{contains_seq, find_sub, lower_of, lowercase, str_eq, to_chars};

verus! {

/// The header of one decoded signal: the signal's member name, the first
/// property name it carries, and the sender, where present.
pub struct SignalInfo {
    pub member: Option<String>,
    pub property: Option<String>,
    pub sender: Option<String>,
}

pub struct SignalInfoV {
    pub member: Option<Seq<char>>,
    pub property: Option<Seq<char>>,
    pub sender: Option<Seq<char>>,
}

impl View for SignalInfo {
    type V = SignalInfoV;

    open spec fn view(&self) -> SignalInfoV {
        SignalInfoV {
            member: self.member.deep_view(),
            property: self.property.deep_view(),
            sender: self.sender.deep_view(),
        }
    }
}

/// The topic a signal belongs on: a member named "seeked" in any case is
/// a seek; otherwise the first property name decides, an unexpected name
/// is kept as unknown, and a signal without one cannot be parsed.
pub open spec fn spec_event_type_of(s: SignalInfoV) -> EventTypeV {
    if s.member matches Some(m) && lower_of(m) == "seeked"@ {
        EventTypeV::Seeked
    } else {
        match s.property {
            Some(p) => if p == "Metadata"@ {
                EventTypeV::PlayerSongChanged
            } else if p == "PlaybackStatus"@ {
                EventTypeV::PlaybackChanged
            } else {
                EventTypeV::Unknown(p)
            },
            None => EventTypeV::ParseError,
        }
    }
}

/// The identity contains some whitelisted fragment, compared ignoring
/// case.
pub open spec fn whitelist_matches(whitelist: Seq<Seq<char>>, identity: Seq<char>) -> bool {
    exists|i: int|
        0 <= i < whitelist.len() && #[trigger] contains_seq(
            lower_of(identity),
            lower_of(whitelist[i]),
        )
}

/// The monitor: holds the options and the bus handle its surroundings
/// publish decoded events with.
pub struct DBusMonitor {
    pub args: Args,
    pub event_bus: EventBusHandle,
}

impl DBusMonitor {
    pub fn new(args: Args, event_bus: EventBusHandle) -> (r: DBusMonitor)
        ensures
            r.args@ == args@,
    {
        DBusMonitor { args, event_bus }
    }

    /// Classifies a decoded signal.
    pub fn determine_event_type(info: &SignalInfo) -> (r: EventType)
        ensures
            r@ == spec_event_type_of(info@),
    {
        if let Some(member) = &info.member {
            let low = lowercase(member.as_str());
            if str_eq(low.as_str(), "seeked") {
                return EventType::Seeked;
            }
        }
        match &info.property {
            Some(p) => {
                if str_eq(p.as_str(), "Metadata") {
                    EventType::PlayerSongChanged
                } else if str_eq(p.as_str(), "PlaybackStatus") {
                    EventType::PlaybackChanged
                } else {
                    EventType::Unknown(p.clone())
                }
            },
            None => EventType::ParseError,
        }
    }

    /// Whether a signal's sender should be handled: everything is handled
    /// while the whitelist is empty or while the sender's identity could
    /// not be resolved; otherwise the identity must contain some
    /// whitelisted fragment, compared ignoring case.
    pub fn should_handle_sender(&self, identity: Option<&String>) -> (r: bool)
        ensures
            r == (self.args@.whitelist.len() == 0 || match identity.deep_view() {
                Option::<Seq<char>>::None => true,
                Option::<Seq<char>>::Some(s) => whitelist_matches(self.args@.whitelist, s),
            }),
    {
        if self.args.whitelist.len() == 0 {
            return true;
        }
        let idt = match identity {
            Some(s) => s,
            None => {
                return true;
            },
        };
        proof {
            assert(identity.deep_view() == Some(idt@));
        }
        let low_idt = lowercase(idt.as_str());
        let idt_chars = to_chars(low_idt.as_str());
        let n = self.args.whitelist.len();
        let mut i: usize = 0;
        while i < n
            invariant
                i <= n,
                n == self.args@.whitelist.len(),
                self.args@.whitelist.len() > 0,
                identity.deep_view() == Some(idt@),
                idt_chars@ == lower_of(idt@),
                forall|j: int|
                    0 <= j < i ==> !contains_seq(
                        lower_of(idt@),
                        lower_of(self.args@.whitelist[j]),
                    ),
            decreases n - i,
        {
            let low_w = lowercase(self.args.whitelist[i].as_str());
            let w_chars = to_chars(low_w.as_str());
            match find_sub(&idt_chars, &w_chars) {
                Some(p) => {
                    proof {
                        assert(crate::text::match_at(
                            lower_of(idt@),
                            lower_of(self.args@.whitelist[i as int]),
                            p as int,
                        ));
                        assert(contains_seq(
                            lower_of(idt@),
                            lower_of(self.args@.whitelist[i as int]),
                        ));
                        assert(whitelist_matches(self.args@.whitelist, idt@));
                    }
                    return true;
                },
                None => {
                    i = i + 1;
                },
            }
        }
        proof {
            assert(!whitelist_matches(self.args@.whitelist, idt@)) by {
                if whitelist_matches(self.args@.whitelist, idt@) {
                    let j = choose|j: int|
                        0 <= j < self.args@.whitelist.len() && #[trigger] contains_seq(
                            lower_of(idt@),
                            lower_of(self.args@.whitelist[j]),
                        );
                    assert(!contains_seq(lower_of(idt@), lower_of(self.args@.whitelist[j])));
                }
            }
        }
        false
    }
}

} // verus!
