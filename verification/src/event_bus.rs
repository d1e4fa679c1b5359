//! A process-wide, topic-addressed publish/subscribe mechanism.
//!
//! The bus owns a registry mapping each topic to its subscriber channels;
//! the registry bookkeeping is verified, while delivery runs over standard
//! channels behind the trusted wrappers declared here. Delivery to a
//! subscriber whose channel is gone is dropped silently and never blocks
//! or fails publication to the others.

use vstd::prelude::*;
use std::sync::mpsc::{Receiver, Sender};

verus! {

#[verifier::external_type_specification]
#[verifier::external_body]
#[verifier::reject_recursive_types(T)]
pub struct ExSender<T>(Sender<T>);

#[verifier::external_type_specification]
#[verifier::external_body]
#[verifier::reject_recursive_types(T)]
pub struct ExReceiver<T>(Receiver<T>);

/// Relies on `std::sync::mpsc::channel`: returns a connected
/// sender/receiver pair.
#[verifier::external_body]
fn new_channel<T>() -> (r: (Sender<T>, Receiver<T>)) {
    std::sync::mpsc::channel()
}

/// Relies on `Sender::send`: queues the value for the receiver; the
/// result says whether the receiver still existed. A failed send only
/// drops the value.
#[verifier::external_body]
fn channel_send<T>(tx: &Sender<T>, value: T) -> (r: bool) {
    tx.send(value).is_ok()
}

/// Relies on `Receiver::recv`: blocks until a value arrives and returns
/// it, or returns `None` once every sender is gone.
#[verifier::external_body]
fn channel_recv<T>(rx: &Receiver<T>) -> (r: Option<T>) {
    rx.recv().ok()
}

/// Relies on `Sender::clone`: another sending handle to the same channel.
#[verifier::external_body]
fn clone_sender<T>(tx: &Sender<T>) -> (r: Sender<T>) {
    tx.clone()
}

/// A bus topic. Topics are a closed set of identifiers plus a catch-all
/// for unknown input and a marker for undecodable input, so that
/// malformed messages never prevent the bus from running.
pub enum EventType {
    PlayerStateChanged,
    PlayerSongChanged,
    PlaybackChanged,
    Seeked,
    RateChanged,
    PlayerTick,
    ParseError,
    Unknown(String),
}

pub enum EventTypeV {
    PlayerStateChanged,
    PlayerSongChanged,
    PlaybackChanged,
    Seeked,
    RateChanged,
    PlayerTick,
    ParseError,
    Unknown(Seq<char>),
}

impl View for EventType {
    type V = EventTypeV;

    open spec fn view(&self) -> EventTypeV {
        match self {
            EventType::PlayerStateChanged => EventTypeV::PlayerStateChanged,
            EventType::PlayerSongChanged => EventTypeV::PlayerSongChanged,
            EventType::PlaybackChanged => EventTypeV::PlaybackChanged,
            EventType::Seeked => EventTypeV::Seeked,
            EventType::RateChanged => EventTypeV::RateChanged,
            EventType::PlayerTick => EventTypeV::PlayerTick,
            EventType::ParseError => EventTypeV::ParseError,
            EventType::Unknown(s) => EventTypeV::Unknown(s@),
        }
    }
}

impl EventType {
    /// Whether two topics are the same.
    pub fn same_type(&self, other: &EventType) -> (r: bool)
        ensures
            r == (self@ == other@),
    {
        match self {
            EventType::PlayerStateChanged => match other {
                EventType::PlayerStateChanged => true,
                _ => false,
            },
            EventType::PlayerSongChanged => match other {
                EventType::PlayerSongChanged => true,
                _ => false,
            },
            EventType::PlaybackChanged => match other {
                EventType::PlaybackChanged => true,
                _ => false,
            },
            EventType::Seeked => match other {
                EventType::Seeked => true,
                _ => false,
            },
            EventType::RateChanged => match other {
                EventType::RateChanged => true,
                _ => false,
            },
            EventType::PlayerTick => match other {
                EventType::PlayerTick => true,
                _ => false,
            },
            EventType::ParseError => match other {
                EventType::ParseError => true,
                _ => false,
            },
            EventType::Unknown(a) => match other {
                EventType::Unknown(b) => crate::text::str_eq(a.as_str(), b.as_str()),
                _ => false,
            },
        }
    }
}

impl Clone for EventType {
    fn clone(&self) -> (r: Self)
        ensures
            r@ == self@,
    {
        match self {
            EventType::PlayerStateChanged => EventType::PlayerStateChanged,
            EventType::PlayerSongChanged => EventType::PlayerSongChanged,
            EventType::PlaybackChanged => EventType::PlaybackChanged,
            EventType::Seeked => EventType::Seeked,
            EventType::RateChanged => EventType::RateChanged,
            EventType::PlayerTick => EventType::PlayerTick,
            EventType::ParseError => EventType::ParseError,
            EventType::Unknown(s) => EventType::Unknown(s.clone()),
        }
    }
}

/// A request sent to the bus task: publish a payload on a topic, or
/// register a new subscriber channel for a topic.
pub enum EventBusMessage {
    Publish { event_type: EventType, data: Vec<u8> },
    Subscribe { event_type: EventType, response_tx: Sender<Receiver<Vec<u8>>> },
}

/// The channels registered for one topic.
struct TopicChannels {
    event_type: EventType,
    senders: Vec<Sender<Vec<u8>>>,
}

/// Some topic entry in `s` is for topic `t`.
pub open spec fn bus_contains(s: Seq<(EventTypeV, nat)>, t: EventTypeV) -> bool {
    exists|i: int| 0 <= i < s.len() && s[i].0 == t
}

/// The index of the entry for topic `t` (unique when topics are distinct).
pub open spec fn bus_idx_of(s: Seq<(EventTypeV, nat)>, t: EventTypeV) -> int {
    choose|i: int| 0 <= i < s.len() && s[i].0 == t
}

/// Every topic has at most one entry.
pub open spec fn bus_topics_unique(s: Seq<(EventTypeV, nat)>) -> bool {
    forall|i: int, j: int| 0 <= i < j < s.len() ==> s[i].0 != s[j].0
}

/// The registry after one more channel is registered for topic `t`.
pub open spec fn spec_subscribed(s: Seq<(EventTypeV, nat)>, t: EventTypeV) -> Seq<
    (EventTypeV, nat),
> {
    if bus_contains(s, t) {
        s.update(bus_idx_of(s, t), (t, (s[bus_idx_of(s, t)].1 + 1) as nat))
    } else {
        s.push((t, 1nat))
    }
}

/// A cheap handle for talking to a running bus from any thread.
pub struct EventBusHandle {
    tx: Sender<EventBusMessage>,
}

impl Clone for EventBusHandle {
    fn clone(&self) -> Self {
        EventBusHandle { tx: clone_sender(&self.tx) }
    }
}

impl EventBusHandle {
    /// Asks the bus to deliver `data` to every subscriber of the topic.
    /// A bus that has stopped ignores the request.
    pub fn publish(&self, event_type: EventType, data: Vec<u8>) {
        let msg = EventBusMessage::Publish { event_type, data };
        let _ = channel_send(&self.tx, msg);
    }

    /// Asks the bus for a fresh subscriber channel on the topic. It will
    /// receive every payload published to the topic from this point
    /// forward; `None` when the bus has stopped.
    pub fn subscribe(&self, event_type: EventType) -> Option<Receiver<Vec<u8>>> {
        let pair = new_channel::<Receiver<Vec<u8>>>();
        let response_tx = pair.0;
        let response_rx = pair.1;
        let msg = EventBusMessage::Subscribe { event_type, response_tx };
        if channel_send(&self.tx, msg) {
            channel_recv(&response_rx)
        } else {
            None
        }
    }
}

/// The bus itself: a registry of subscriber channels per topic, fed by a
/// request channel. Its view is the sequence of topics with the number of
/// channels registered for each.
pub struct EventBus {
    rx: Receiver<EventBusMessage>,
    senders: Vec<TopicChannels>,
}

impl View for EventBus {
    type V = Seq<(EventTypeV, nat)>;

    closed spec fn view(&self) -> Seq<(EventTypeV, nat)> {
        Seq::new(
            self.senders@.len(),
            |i: int| (self.senders@[i].event_type@, self.senders@[i].senders@.len() as nat),
        )
    }
}

impl EventBus {
    /// A bus with no subscribers, and a handle for talking to it.
    pub fn new() -> (r: (EventBus, EventBusHandle))
        ensures
            r.0@ == Seq::<(EventTypeV, nat)>::empty(),
            r.0.wf(),
    {
        let pair = new_channel::<EventBusMessage>();
        let bus = EventBus { rx: pair.1, senders: Vec::new() };
        let handle = EventBusHandle { tx: pair.0 };
        proof {
            assert(bus@ =~= Seq::<(EventTypeV, nat)>::empty());
        }
        (bus, handle)
    }

    /// Well-formed: every topic has at most one entry.
    pub open spec fn wf(&self) -> bool {
        bus_topics_unique(self@)
    }

    /// Registers and returns a fresh subscriber channel for the topic: the
    /// topic's channel count grows by one, a first subscriber creates the
    /// topic's entry, and no other topic is touched.
    pub fn subscribe(&mut self, event_type: EventType) -> (r: Receiver<Vec<u8>>)
        requires
            old(self).wf(),
        ensures
            final(self).wf(),
            bus_contains(old(self)@, event_type@) ==> final(self)@ == old(self)@.update(
                bus_idx_of(old(self)@, event_type@),
                (event_type@, (old(self)@[bus_idx_of(old(self)@, event_type@)].1 + 1) as nat),
            ),
            !bus_contains(old(self)@, event_type@) ==> final(self)@ == old(self)@.push(
                (event_type@, 1nat),
            ),
    {
        let pair = new_channel::<Vec<u8>>();
        let tx = pair.0;
        let rx = pair.1;
        let ghost s0 = self@;
        match self.find_topic(&event_type) {
            Some(i) => {
                proof {
                    let w = bus_idx_of(s0, event_type@);
                    assert(0 <= w < s0.len() && s0[w].0 == event_type@);
                    assert(w == i) by {
                        if w != i {
                            assert(s0[w].0 != s0[i as int].0);
                        }
                    }
                }
                self.senders[i].senders.push(tx);
                proof {
                    assert(self@ =~= s0.update(
                        i as int,
                        (event_type@, (s0[i as int].1 + 1) as nat),
                    ));
                    assert(bus_topics_unique(self@)) by {
                        assert(forall|k: int| 0 <= k < self@.len() ==> self@[k].0 == s0[k].0);
                    }
                }
            },
            None => {
                let mut list: Vec<Sender<Vec<u8>>> = Vec::new();
                list.push(tx);
                self.senders.push(TopicChannels { event_type, senders: list });
                proof {
                    assert(self@ =~= s0.push(self@[s0.len() as int]));
                    assert(bus_topics_unique(self@)) by {
                        assert(forall|k: int| 0 <= k < s0.len() ==> self@[k] == s0[k]);
                    }
                }
            },
        }
        rx
    }

    /// The index of the topic's entry, if any.
    fn find_topic(&self, event_type: &EventType) -> (r: Option<usize>)
        ensures
            match r {
                Some(i) => i < self@.len() && self@[i as int].0 == event_type@,
                None => !bus_contains(self@, event_type@),
            },
    {
        let n = self.senders.len();
        let mut i: usize = 0;
        while i < n
            invariant
                i <= n,
                n == self@.len(),
                forall|k: int| 0 <= k < i ==> self@[k].0 != event_type@,
            decreases n - i,
        {
            if self.senders[i].event_type.same_type(event_type) {
                return Some(i);
            }
            i = i + 1;
        }
        None
    }

    /// Delivers the payload to every channel registered for the topic, in
    /// registration order. A full or closed channel is skipped silently;
    /// the registry itself is untouched. Delivery itself happens outside
    /// the verified state, so nothing more is claimed here.
    pub fn publish(&self, event_type: EventType, event: Vec<u8>) {
        match self.find_topic(&event_type) {
            Some(i) => {
                let list = &self.senders[i].senders;
                let n = list.len();
                let mut k: usize = 0;
                while k < n
                    invariant
                        k <= n,
                        n == list@.len(),
                    decreases n - k,
                {
                    let _ = channel_send(&list[k], event.clone());
                    k = k + 1;
                }
            },
            None => (),
        }
    }

    /// Waits for the next request and serves it: a publish request
    /// delivers its payload to the topic's subscribers and leaves the
    /// registry unchanged; a subscribe request registers one new channel
    /// for its topic and hands it back. Returns `false`, changing
    /// nothing, once every handle is gone; the surrounding process keeps
    /// calling this until then.
    pub fn run_step(&mut self) -> (more: bool)
        requires
            old(self).wf(),
        ensures
            final(self).wf(),
            !more ==> final(self)@ == old(self)@,
            more ==> final(self)@ == old(self)@ || exists|t: EventTypeV|
                final(self)@ == spec_subscribed(old(self)@, t),
    {
        match channel_recv(&self.rx) {
            None => false,
            Some(msg) => {
                match msg {
                    EventBusMessage::Publish { event_type, data } => {
                        self.publish(event_type, data);
                    },
                    EventBusMessage::Subscribe { event_type, response_tx } => {
                        let ghost t = event_type@;
                        let rx = self.subscribe(event_type);
                        proof {
                            assert(self@ == spec_subscribed(old(self)@, t));
                        }
                        let _ = channel_send(&response_tx, rx);
                    },
                }
                true
            },
        }
    }
}

} // verus!
