//! Who is to be told when one end of a pipe becomes ready.

use std::sync::Arc;

use vstd::prelude::*;

use crate::event::{Event, PollMode};

verus! {

/// The end of a pipe that the terminal holds.
#[derive(Clone, Copy, Debug, PartialEq, Eq, Structural)]
pub enum PipeEnd {
    /// The terminal reads, and a worker thread writes.
    Reader,
    /// The terminal writes, and a worker thread reads.
    Writer,
}

/// A request to be told.
pub struct Interest<P> {
    /// The event to send.
    pub event: Event,
    /// The poller to send the event to.
    pub poller: Arc<P>,
    /// How long the request stands.
    pub mode: PollMode,
}

/// The place where the request for one end of a pipe is kept.
pub struct Registration<P> {
    /// The request that stands, if there is one.
    pub interest: Option<Interest<P>>,
    /// The end of the pipe that the request is about.
    pub end: PipeEnd,
}

/// An event on its way to a poller.
pub struct Packet<P> {
    /// The poller that gets the event.
    pub poller: Arc<P>,
    /// The event itself.
    pub event: Event,
}

impl PipeEnd {
    /// Does `event` ask for what this end can announce?
    pub open spec fn is_asked_for(self, event: Event) -> bool {
        match self {
            PipeEnd::Reader => event.readable,
            PipeEnd::Writer => event.writable,
        }
    }
}

impl<P> Registration<P> {
    /// The registration with this request in place of whatever stood before.
    pub open spec fn with_interest(self, poller: Arc<P>, event: Event, mode: PollMode) -> Self {
        Registration { interest: Some(Interest { event, poller, mode }), end: self.end }
    }

    /// The registration without a request.
    pub open spec fn without_interest(self) -> Self {
        Registration { interest: None, end: self.end }
    }

    /// What a wake-up sends, and to whom.
    pub open spec fn packet_on_wake(self) -> Option<Packet<P>> {
        match self.interest {
            Some(interest) if self.end.is_asked_for(interest.event) => Some(
                Packet { poller: interest.poller, event: interest.event },
            ),
            _ => None,
        }
    }

    /// The registration that a wake-up leaves behind.
    pub open spec fn after_wake(self) -> Self {
        match self.interest {
            Some(interest) if self.end.is_asked_for(interest.event)
                && interest.mode.ends_after_event() => self.without_interest(),
            _ => self,
        }
    }

    /// The registration that this many wake-ups in a row leave behind.
    pub open spec fn after_wakes(self, count: nat) -> Self
        decreases count,
    {
        if count == 0 {
            self
        } else {
            self.after_wakes((count - 1) as nat).after_wake()
        }
    }

    /// A registration on which nobody waits.
    pub fn new(end: PipeEnd) -> (registration: Self)
        ensures
            registration == (Registration { interest: None::<Interest<P>>, end }),
    {
        Registration { interest: None, end }
    }

    /// Keeps a request, in place of the one that stood before.
    pub fn register(&mut self, poller: &Arc<P>, event: Event, mode: PollMode)
        ensures
            *final(self) == old(self).with_interest(*poller, event, mode),
            final(self).interest == Some(Interest { event, poller: *poller, mode }),
            final(self).end == old(self).end,
    {
        self.interest = Some(Interest { event, poller: share(poller), mode });
    }

    /// Drops the request, if there is one.
    pub fn deregister(&mut self)
        ensures
            *final(self) == old(self).without_interest(),
            final(self).interest is None,
            final(self).end == old(self).end,
    {
        self.interest = None;
    }

    /// Answers a wake-up: the packet to send, where somebody asked for what this end can
    /// announce. A request that ends with its first event ends here.
    pub fn wake_by_ref(&mut self) -> (packet: Option<Packet<P>>)
        ensures
            packet == old(self).packet_on_wake(),
            *final(self) == old(self).after_wake(),
    {
        let mut packet: Option<Packet<P>> = None;
        let mut ended = false;
        if let Some(interest) = self.interest.as_ref() {
            let send_event = match self.end {
                PipeEnd::Reader => interest.event.readable,
                PipeEnd::Writer => interest.event.writable,
            };
            if send_event {
                packet = Some(Packet { poller: share(&interest.poller), event: interest.event });
                ended = matches!(interest.mode, PollMode::Oneshot | PollMode::EdgeOneshot);
            }
        }
        if ended {
            self.interest = None;
        }
        packet
    }
}

/// Whoever registers is told of the next wake-up, if it is what they asked for, and nobody
/// else is: the request that stood before is forgotten.
pub proof fn law_latest_request_is_told<P>(
    registration: Registration<P>,
    poller: Arc<P>,
    event: Event,
    mode: PollMode,
)
    ensures
        registration.with_interest(poller, event, mode).packet_on_wake() == (if (registration.end
            == PipeEnd::Reader && event.readable) || (registration.end == PipeEnd::Writer
            && event.writable) {
            Some(Packet { poller, event })
        } else {
            None
        }),
{
}

/// Where no interest is registered, because it never was or is not any more, nothing is ever
/// sent, however often the end is woken.
pub proof fn law_nothing_is_sent_without_interest<P>(registration: Registration<P>, wakes: nat)
    requires
        registration.interest is None,
    ensures
        registration.after_wakes(wakes) == registration,
        registration.after_wakes(wakes).packet_on_wake() is None,
    decreases wakes,
{
    if wakes > 0 {
        law_nothing_is_sent_without_interest(registration, (wakes - 1) as nat);
    }
}

/// Deregistering leaves no trace of what was registered before, and with whom.
pub proof fn law_deregistering_undoes_any_registration<P>(
    registration: Registration<P>,
    poller: Arc<P>,
    event: Event,
    mode: PollMode,
)
    ensures
        registration.with_interest(poller, event, mode).without_interest()
            == registration.without_interest(),
        registration.without_interest().interest is None,
        registration.without_interest().end == registration.end,
{
}

/// A request in one of the modes that end with an event is answered once. After that nothing
/// is sent until somebody registers again.
pub proof fn law_oneshot_is_told_once<P>(registration: Registration<P>)
    requires
        registration.interest matches Some(interest) && (interest.mode is Oneshot
            || interest.mode is EdgeOneshot),
        registration.packet_on_wake() is Some,
    ensures
        registration.after_wake().packet_on_wake() is None,
        registration.after_wake().after_wake() == registration.after_wake(),
{
}

/// A request in one of the other modes stands, and each wake-up is answered in the same way.
pub proof fn law_standing_request_is_told_each_time<P>(registration: Registration<P>)
    requires
        registration.interest matches Some(interest) && (interest.mode is Level
            || interest.mode is Edge),
    ensures
        registration.after_wake() == registration,
        registration.after_wake().packet_on_wake() == registration.packet_on_wake(),
{
}

/// Registering keeps the request exactly as it was made, at the same end of the pipe, and
/// nothing of the one before.
pub proof fn law_request_is_kept_as_made<P>(
    registration: Registration<P>,
    poller: Arc<P>,
    event: Event,
    mode: PollMode,
)
    ensures
        registration.with_interest(poller, event, mode).interest == Some(
            Interest { event, poller, mode },
        ),
        registration.with_interest(poller, event, mode).end == registration.end,
{
}

/// A wake-up sends a packet exactly where somebody waits to read at a reading end, or to write
/// at a writing end. The packet is the event that they asked for, to the poller that they
/// named.
pub proof fn law_wake_answers_what_was_asked<P>(registration: Registration<P>)
    ensures
        registration.packet_on_wake() is Some <==> (registration.interest matches Some(interest)
            && ((registration.end == PipeEnd::Reader && interest.event.readable) || (
        registration.end == PipeEnd::Writer && interest.event.writable))),
        registration.packet_on_wake() matches Some(packet) ==> packet.event
            == registration.interest->0.event && packet.poller
            == registration.interest->0.poller,
{
}

/// A wake-up ends a request exactly where it answers one that was to be answered once.
/// Otherwise the request stands as it was; and the end of the pipe is always the same.
pub proof fn law_wake_ends_only_what_it_answers_once<P>(registration: Registration<P>)
    ensures
        registration.after_wake().end == registration.end,
        registration.packet_on_wake() is Some && (registration.interest->0.mode is Oneshot
            || registration.interest->0.mode is EdgeOneshot)
            ==> registration.after_wake().interest is None,
        registration.packet_on_wake() is None || registration.interest->0.mode is Level
            || registration.interest->0.mode is Edge ==> registration.after_wake().interest
            == registration.interest,
{
}

/// Whoever registers to be told each time is told at every one of any number of wake-ups, in
/// the same words.
pub proof fn law_level_and_edge_are_told_every_time<P>(
    registration: Registration<P>,
    poller: Arc<P>,
    event: Event,
    mode: PollMode,
    wakes: nat,
)
    requires
        mode is Level || mode is Edge,
        (registration.end == PipeEnd::Reader && event.readable) || (registration.end
            == PipeEnd::Writer && event.writable),
    ensures
        registration.with_interest(poller, event, mode).after_wakes(wakes).interest == Some(
            Interest { event, poller, mode },
        ),
        registration.with_interest(poller, event, mode).after_wakes(wakes).packet_on_wake() == Some(
            Packet { poller, event },
        ),
    decreases wakes,
{
    let kept = registration.with_interest(poller, event, mode);
    if wakes > 0 {
        law_level_and_edge_are_told_every_time(
            registration,
            poller,
            event,
            mode,
            (wakes - 1) as nat,
        );
    }
    lemma_end_stays(kept, wakes);
}

proof fn lemma_end_stays<P>(registration: Registration<P>, wakes: nat)
    ensures
        registration.after_wakes(wakes).end == registration.end,
    decreases wakes,
{
    if wakes > 0 {
        lemma_end_stays(registration, (wakes - 1) as nat);
    }
}

/// A request is only used up by the event that it asked for.
pub proof fn law_unanswered_request_stands<P>(registration: Registration<P>)
    requires
        registration.packet_on_wake() is None,
    ensures
        registration.after_wake() == registration,
{
}

/// Hands out another handle to the same poller.
///
/// `<Arc<P> as Clone>::clone` gives a second pointer to the value that the first one
/// points to, and does not touch the value.
#[verifier::external_body]
fn share<P>(poller: &Arc<P>) -> (shared: Arc<P>)
    ensures
        shared == *poller,
{
    poller.clone()
}

} // verus!
