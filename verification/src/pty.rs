//! The tty as a whole: a pseudo console, the two pipes to it, and the child that runs in it.

use std::sync::Arc;

use vstd::prelude::*;

use crate::blocking::{UnblockedReader, UnblockedWriter};
use crate::event::{keyed, with_key, Event, PollMode};
use crate::pipe;
use crate::registration::{Packet, PipeEnd, Registration};

verus! {

/// The key of events about the child.
pub const PTY_CHILD_EVENT_TOKEN: usize = 1;

/// The key of events about reading and writing.
pub const PTY_READ_WRITE_TOKEN: usize = 2;

/// The terminal's end of what the console shows.
pub type ReadPipe = UnblockedReader;

/// The terminal's end of what the console is fed.
pub type WritePipe = UnblockedWriter;

/// Something that happened to the child, which leaves a status of type `S` when it exits.
#[derive(Debug)]
pub enum ChildEvent<S> {
    /// The child has exited, with this status if it is known.
    Exited(Option<S>),
}

/// Why no event about the child could be received.
#[derive(Clone, Copy, Debug, PartialEq, Eq, Structural)]
pub enum TryRecvError {
    /// There is none yet.
    Empty,
    /// There will be none any more.
    Disconnected,
}

/// A tty, over a pseudo console of type `B`, a watcher of type `C` for the child, and a
/// handle of type `H` to it.
pub struct Pty<B, C, H> {
    // Fields are dropped in this order, and the console has to go first: it waits for its
    // output to be read, and blocks if `conout` is gone.
    backend: B,
    conout: ReadPipe,
    conin: WritePipe,
    child_watcher: C,
    // Dropped after the watcher, which uses it until its wait is over.
    child: H,
}

/// What is left to be done for a registration.
#[derive(Clone, Copy, Debug, PartialEq, Eq, Structural)]
pub struct Registered {
    /// The event to send at once on behalf of the pipe to the console.
    pub conin: Option<Event>,
    /// The event to send at once on behalf of the pipe from the console.
    pub conout: Option<Event>,
    /// The event that the child's watcher is to send.
    pub child: Event,
}

impl<B, C, H> Pty<B, C, H> {
    /// The pseudo console.
    pub closed spec fn console(&self) -> B {
        self.backend
    }

    /// The pipe from the console.
    pub closed spec fn output(&self) -> ReadPipe {
        self.conout
    }

    /// The pipe to the console.
    pub closed spec fn input(&self) -> WritePipe {
        self.conin
    }

    /// The child's watcher.
    pub closed spec fn watcher(&self) -> C {
        self.child_watcher
    }

    /// The handle to the child.
    pub closed spec fn child_handle(&self) -> H {
        self.child
    }

    /// What a registration leaves to be done, where `has_room` and `has_data` say what the
    /// pipes to and from the console can take and give.
    pub open spec fn left_on_register(
        &self,
        interest: Event,
        has_room: bool,
        has_data: bool,
    ) -> Registered {
        let event = keyed(interest, PTY_READ_WRITE_TOKEN);
        Registered {
            conin: WritePipe::sent_on_register(event, has_room),
            conout: self.output().sent_on_register(event, has_data),
            child: keyed(interest, PTY_CHILD_EVENT_TOKEN),
        }
    }

    /// Can `left` be what a registration leaves to be done, for something that the two pipes
    /// may hold?
    pub open spec fn may_leave_on_register(&self, interest: Event, left: Registered) -> bool {
        ||| left == self.left_on_register(interest, true, true)
        ||| left == self.left_on_register(interest, true, false)
        ||| left == self.left_on_register(interest, false, true)
        ||| left == self.left_on_register(interest, false, false)
    }

    /// Are the two ttys the same, but for the pipe from the console?
    pub open spec fn differs_in_output_only(self, other: Self) -> bool {
        &&& self.console() == other.console()
        &&& self.input() == other.input()
        &&& self.watcher() == other.watcher()
        &&& self.child_handle() == other.child_handle()
    }

    /// Puts a tty together.
    pub fn new(backend: B, conout: ReadPipe, conin: WritePipe, child_watcher: C, child: H) -> (pty:
        Self)
        ensures
            pty.console() == backend,
            pty.output() == conout,
            pty.input() == conin,
            pty.watcher() == child_watcher,
            pty.child_handle() == child,
    {
        Pty { backend, conout, conin, child_watcher, child }
    }

    /// The child's watcher.
    pub fn child_watcher(&self) -> (watcher: &C)
        ensures
            *watcher == self.watcher(),
    {
        &self.child_watcher
    }

    /// Access to the pseudo console, which is told about a change of size.
    pub fn backend(&mut self) -> (backend: &mut B)
        ensures
            *backend == old(self).console(),
            final(self).console() == *final(backend),
            final(self).output() == old(self).output(),
            final(self).input() == old(self).input(),
            final(self).watcher() == old(self).watcher(),
            final(self).child_handle() == old(self).child_handle(),
    {
        &mut self.backend
    }

    /// Access to the pipe from the console.
    pub fn reader(&mut self) -> (reader: &mut ReadPipe)
        ensures
            *reader == old(self).output(),
            final(self).output() == *final(reader),
            final(self).differs_in_output_only(*old(self)),
    {
        &mut self.conout
    }

    /// Access to the pipe to the console.
    pub fn writer(&mut self) -> (writer: &mut WritePipe)
        ensures
            *writer == old(self).input(),
            final(self).input() == *final(writer),
            final(self).console() == old(self).console(),
            final(self).output() == old(self).output(),
            final(self).watcher() == old(self).watcher(),
            final(self).child_handle() == old(self).child_handle(),
    {
        &mut self.conin
    }

    /// Registers interest in both pipes and in the child, and says which events are left to
    /// be sent, in the order of its fields. Both pipes go by one key, and the child by
    /// another.
    pub fn register<P>(
        &mut self,
        conin_interest: &mut Registration<P>,
        conout_interest: &mut Registration<P>,
        poller: &Arc<P>,
        interest: Event,
        mode: PollMode,
    ) -> (res: Registered)
        ensures
            *final(conin_interest) == old(conin_interest).with_interest(
                *poller,
                keyed(interest, PTY_READ_WRITE_TOKEN),
                mode,
            ),
            *final(conout_interest) == old(conout_interest).with_interest(
                *poller,
                keyed(interest, PTY_READ_WRITE_TOKEN),
                mode,
            ),
            old(self).may_leave_on_register(interest, res),
            res.conin is Some ==> pipe::has_room(old(self).input().end()),
            res.conin is None && interest.writable ==> pipe::found_full(old(self).input().end()),
            res.conout is Some && !old(self).output().first_register() ==> pipe::has_data(
                old(self).output().end(),
            ),
            res.conout is None && interest.readable ==> pipe::found_empty(
                old(self).output().end(),
            ),
            !final(self).output().first_register(),
            final(self).output().end() == old(self).output().end(),
            final(self).differs_in_output_only(*old(self)),
            final(self).console() == old(self).console(),
            final(self).input() == old(self).input(),
            final(self).watcher() == old(self).watcher(),
            final(self).child_handle() == old(self).child_handle(),
            res.child == (Event { key: PTY_CHILD_EVENT_TOKEN, ..interest }),
            res.conin matches Some(sent) ==> sent == (Event {
                key: PTY_READ_WRITE_TOKEN,
                ..interest
            }),
            res.conout matches Some(sent) ==> sent == (Event {
                key: PTY_READ_WRITE_TOKEN,
                ..interest
            }),
            res.conin is Some ==> interest.writable,
            res.conout is Some ==> interest.readable || old(self).output().first_register(),
            old(self).output().first_register() ==> res.conout is Some,
    {
        let event = with_key(interest, PTY_READ_WRITE_TOKEN);
        let conin = self.conin.register(conin_interest, poller, event, mode);
        let conout = self.conout.register(conout_interest, poller, event, mode);
        let child = with_key(interest, PTY_CHILD_EVENT_TOKEN);
        Registered { conin, conout, child }
    }

    /// Registers again, with another interest or in another mode. It does what registering
    /// does.
    pub fn reregister<P>(
        &mut self,
        conin_interest: &mut Registration<P>,
        conout_interest: &mut Registration<P>,
        poller: &Arc<P>,
        interest: Event,
        mode: PollMode,
    ) -> (res: Registered)
        ensures
            *final(conin_interest) == old(conin_interest).with_interest(
                *poller,
                keyed(interest, PTY_READ_WRITE_TOKEN),
                mode,
            ),
            *final(conout_interest) == old(conout_interest).with_interest(
                *poller,
                keyed(interest, PTY_READ_WRITE_TOKEN),
                mode,
            ),
            old(self).may_leave_on_register(interest, res),
            res.conin is Some ==> pipe::has_room(old(self).input().end()),
            res.conin is None && interest.writable ==> pipe::found_full(old(self).input().end()),
            res.conout is Some && !old(self).output().first_register() ==> pipe::has_data(
                old(self).output().end(),
            ),
            res.conout is None && interest.readable ==> pipe::found_empty(
                old(self).output().end(),
            ),
            !final(self).output().first_register(),
            final(self).output().end() == old(self).output().end(),
            final(self).differs_in_output_only(*old(self)),
            final(self).console() == old(self).console(),
            final(self).input() == old(self).input(),
            final(self).watcher() == old(self).watcher(),
            final(self).child_handle() == old(self).child_handle(),
            res.child == (Event { key: PTY_CHILD_EVENT_TOKEN, ..interest }),
            res.conin matches Some(sent) ==> sent == (Event {
                key: PTY_READ_WRITE_TOKEN,
                ..interest
            }),
            res.conout matches Some(sent) ==> sent == (Event {
                key: PTY_READ_WRITE_TOKEN,
                ..interest
            }),
            res.conin is Some ==> interest.writable,
            res.conout is Some ==> interest.readable || old(self).output().first_register(),
            old(self).output().first_register() ==> res.conout is Some,
    {
        self.register(conin_interest, conout_interest, poller, interest, mode)
    }

    /// Deregisters interest in both pipes.
    pub fn deregister<P>(
        &self,
        conin_interest: &mut Registration<P>,
        conout_interest: &mut Registration<P>,
    )
        ensures
            *final(conin_interest) == old(conin_interest).without_interest(),
            *final(conout_interest) == old(conout_interest).without_interest(),
    {
        self.conin.deregister(conin_interest);
        self.conout.deregister(conout_interest);
    }
}

/// What an attempt to receive an event about the child amounts to. A watcher that is gone
/// counts as a child that has exited, with a status that nobody knows.
pub fn next_child_event<S>(received: Result<ChildEvent<S>, TryRecvError>) -> (event: Option<
    ChildEvent<S>,
>)
    ensures
        event == match received {
            Ok(event) => Some(event),
            Err(TryRecvError::Empty) => None,
            Err(TryRecvError::Disconnected) => Some(ChildEvent::Exited(None::<S>)),
        },
{
    match received {
        Ok(event) => Some(event),
        Err(TryRecvError::Empty) => None,
        Err(TryRecvError::Disconnected) => Some(ChildEvent::Exited(None)),
    }
}

/// What registering or registering again leaves to be done goes by the interest, by what the
/// pipes hold and by whether the pipe from the console was registered before, and by nothing
/// else. So two ttys that agree in these send the same events.
pub proof fn law_same_ttys_send_the_same_events<B, C, H>(
    one: Pty<B, C, H>,
    other: Pty<B, C, H>,
    interest: Event,
    has_room: bool,
    has_data: bool,
)
    requires
        one.output().first_register() == other.output().first_register(),
    ensures
        one.left_on_register(interest, has_room, has_data) == other.left_on_register(
            interest,
            has_room,
            has_data,
        ),
        forall|left: Registered|
            one.may_leave_on_register(interest, left) == #[trigger] other.may_leave_on_register(
                interest,
                left,
            ),
{
}

/// Whatever a registration leaves to be done, the child's event has the child's key, and an
/// event of the pipes has theirs, which is another. Each asks for what the interest asked for.
/// The pipe to the console sends only for somebody who wants to write, and the pipe from it
/// only for somebody who wants to read, except that its first registration always sends.
pub proof fn law_each_source_has_its_own_key<B, C, H>(
    pty: Pty<B, C, H>,
    interest: Event,
    left: Registered,
)
    requires
        pty.may_leave_on_register(interest, left),
    ensures
        left.child.key == PTY_CHILD_EVENT_TOKEN,
        left.child.readable == interest.readable,
        left.child.writable == interest.writable,
        left.child.interrupt == interest.interrupt,
        left.child.priority == interest.priority,
        left.conin matches Some(sent) ==> {
            &&& interest.writable
            &&& sent.key == PTY_READ_WRITE_TOKEN
            &&& sent.readable == interest.readable
            &&& sent.writable == interest.writable
            &&& sent.interrupt == interest.interrupt
            &&& sent.priority == interest.priority
        },
        left.conout matches Some(sent) ==> {
            &&& interest.readable || pty.output().first_register()
            &&& sent.key == PTY_READ_WRITE_TOKEN
            &&& sent.readable == interest.readable
            &&& sent.writable == interest.writable
            &&& sent.interrupt == interest.interrupt
            &&& sent.priority == interest.priority
        },
        pty.output().first_register() ==> left.conout is Some,
        PTY_CHILD_EVENT_TOKEN == 1,
        PTY_READ_WRITE_TOKEN == 2,
{
}

/// Given what the pipes hold, a registration leaves an event for the pipe to the console
/// exactly where there is room for somebody who wants to write, and one for the pipe from the
/// console exactly where there is data for somebody who wants to read, or the first time.
pub proof fn law_pipes_start_off_by_what_they_hold<B, C, H>(
    pty: Pty<B, C, H>,
    interest: Event,
    has_room: bool,
    has_data: bool,
)
    ensures
        pty.left_on_register(interest, has_room, has_data).conin is Some <==> has_room
            && interest.writable,
        pty.left_on_register(interest, has_room, has_data).conout is Some <==> (has_data
            && interest.readable) || pty.output().first_register(),
{
}

/// After a registration, whatever either pipe sends on a wake-up goes to the poller that was
/// given, and is the interest that was given, under the key of the pipes.
pub proof fn law_pipes_answer_under_their_key<P>(
    registration: Registration<P>,
    poller: Arc<P>,
    interest: Event,
    mode: PollMode,
)
    ensures
        ({
            let event = keyed(interest, PTY_READ_WRITE_TOKEN);
            &&& registration.with_interest(poller, event, mode).packet_on_wake() == (
            if (registration.end == PipeEnd::Reader && interest.readable) || (registration.end
                == PipeEnd::Writer && interest.writable) {
                Some(Packet { poller, event })
            } else {
                None
            })
            &&& event.key != keyed(interest, PTY_CHILD_EVENT_TOKEN).key
        }),
{
}

} // verus!
