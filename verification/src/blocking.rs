//! Reading and writing without blocking, while a worker thread does the blocking calls.

use std::sync::Arc;
use std::task::Waker;

use vstd::prelude::*;

use crate::event::{Event, PollMode};
use crate::pipe;
use crate::registration::{Packet, PipeEnd, Registration};

verus! {

/// What a worker thread's attempt to move bytes through its end of the pipe came to.
pub enum Progress<E> {
    /// The pipe has to change first.
    Pending,
    /// This many bytes went through.
    Moved(usize),
    /// The blocking call failed.
    Failed {
        /// Was the call merely interrupted?
        interrupted: bool,
        /// What went wrong.
        error: E,
    },
}

/// What a worker thread does next.
pub enum Step<E> {
    /// It ends.
    Stop,
    /// It tries again.
    Continue,
    /// It wakes the terminal's end of the pipe, and tries again.
    NotifyAndContinue,
    /// It reports the error, and ends.
    ReportAndStop(E),
    /// It sleeps until the pipe wakes it, and tries again.
    Park,
}

/// How a worker thread goes on, where `moved` is its answer to bytes that went through.
pub open spec fn next_step<E>(progress: Progress<E>, moved: Step<E>) -> Step<E> {
    match progress {
        Progress::Pending => Step::Park,
        Progress::Moved(0) => Step::Stop,
        Progress::Moved(_) => moved,
        Progress::Failed { interrupted: true, .. } => Step::Continue,
        Progress::Failed { interrupted: false, error } => Step::ReportAndStop(error),
    }
}

/// What the thread behind a reader does after it tried to fill the pipe from its source.
///
/// It ends when nothing went through, for then the pipe is closed or the source is at its
/// end. Otherwise it tells the terminal that there is data. The pipe's own waker would not
/// do: it is armed only when the terminal found the pipe empty, and the terminal also stops
/// reading on its own account, with bytes left over. Should the pipe then fill up, the
/// thread would wait for room that only the terminal can make, and the terminal for a notice
/// that only the thread can give.
pub fn fill_step<E>(progress: Progress<E>) -> (step: Step<E>)
    ensures
        step == next_step(progress, Step::NotifyAndContinue),
        step is Park <==> progress is Pending,
        step is NotifyAndContinue <==> (progress matches Progress::Moved(n) && n > 0),
{
    match progress {
        Progress::Pending => Step::Park,
        Progress::Moved(n) => if n == 0 {
            Step::Stop
        } else {
            Step::NotifyAndContinue
        },
        Progress::Failed { interrupted, error } => if interrupted {
            Step::Continue
        } else {
            Step::ReportAndStop(error)
        },
    }
}

/// What the thread behind a writer does after it tried to drain the pipe into its sink.
///
/// It ends when nothing went through, for then the pipe is closed or the sink is full. The
/// pipe's own waker tells the terminal that there is room again.
pub fn drain_step<E>(progress: Progress<E>) -> (step: Step<E>)
    ensures
        step == next_step(progress, Step::Continue),
        step is Park <==> progress is Pending,
        progress matches Progress::Moved(n) && n > 0 ==> step is Continue,
{
    match progress {
        Progress::Pending => Step::Park,
        Progress::Moved(n) => if n == 0 {
            Step::Stop
        } else {
            Step::Continue
        },
        Progress::Failed { interrupted, error } => if interrupted {
            Step::Continue
        } else {
            Step::ReportAndStop(error)
        },
    }
}

/// How many bytes a poll of the pipe has moved: none, where it is pending.
pub open spec fn moved_by(polled: Option<usize>) -> usize {
    match polled {
        Some(n) => n,
        None => 0,
    }
}

/// Counts the bytes that a poll of the pipe has moved.
pub fn count_moved(polled: Option<usize>) -> (n: usize)
    ensures
        n == moved_by(polled),
        polled matches Some(m) ==> n == m,
        polled is None ==> n == 0,
{
    match polled {
        None => 0,
        Some(n) => n,
    }
}

/// The terminal's end of a pipe that a worker thread fills.
pub struct UnblockedReader {
    /// The pipe that is read from.
    pipe: piper::Reader,
    /// Has interest never been registered?
    first_register: bool,
}

impl UnblockedReader {
    /// The end of the pipe that this reader holds.
    pub closed spec fn end(&self) -> piper::Reader {
        self.pipe
    }

    /// Has interest never been registered?
    pub closed spec fn first_register(&self) -> bool {
        self.first_register
    }

    /// The event that a registration sends by itself, where `has_data` says whether the pipe
    /// holds something.
    pub open spec fn sent_on_register(&self, event: Event, has_data: bool) -> Option<Event> {
        if (has_data && event.readable) || self.first_register() {
            Some(event)
        } else {
            None
        }
    }

    /// Can `sent` be what a registration sends by itself, for something that the pipe may hold?
    pub open spec fn may_send_on_register(&self, event: Event, sent: Option<Event>) -> bool {
        sent == self.sent_on_register(event, true) || sent == self.sent_on_register(event, false)
    }

    /// Sets up a reader over a new pipe: the reader, the registration that goes with it, and
    /// the end of the pipe for the thread that fills it.
    pub fn new<P>(pipe_capacity: usize) -> (res: (Self, Registration<P>, piper::Writer))
        requires
            0 < pipe_capacity,
            pipe_capacity * 2 <= usize::MAX,
        ensures
            res.0.first_register(),
            res.1.interest is None,
            res.1.end == PipeEnd::Reader,
            pipe::reader_capacity(res.0.end()) == pipe_capacity,
            pipe::writer_capacity(res.2) == pipe_capacity,
            pipe::bytes_to_read(res.0.end()).is_prefix_of(pipe::bytes_to_write(res.2)),
            pipe::bytes_to_write(res.2).len() <= pipe::bytes_to_read(res.0.end()).len()
                + pipe_capacity,
    {
        let (reader, writer) = pipe::open_pipe(pipe_capacity);
        let interest = Registration::new(PipeEnd::Reader);
        (UnblockedReader { pipe: reader, first_register: true }, interest, writer)
    }

    /// Registers interest in the reader. The result is an event to send to the poller at
    /// once.
    pub fn register<P>(
        &mut self,
        interest: &mut Registration<P>,
        poller: &Arc<P>,
        event: Event,
        mode: PollMode,
    ) -> (sent: Option<Event>)
        ensures
            *final(interest) == old(interest).with_interest(*poller, event, mode),
            old(self).may_send_on_register(event, sent),
            sent is Some && !old(self).first_register() ==> pipe::has_data(old(self).end()),
            sent is None && event.readable ==> pipe::found_empty(old(self).end()),
            !final(self).first_register(),
            final(self).end() == old(self).end(),
    {
        interest.register(poller, event, mode);
        let has_data = !pipe::is_empty(&self.pipe);
        self.start_off(event, has_data)
    }

    /// Decides whether a registration sends its event by itself: it does if there is data to
    /// be read, and it does the first time.
    pub fn start_off(&mut self, event: Event, has_data: bool) -> (sent: Option<Event>)
        ensures
            sent == old(self).sent_on_register(event, has_data),
            !final(self).first_register(),
            final(self).end() == old(self).end(),
    {
        if (has_data && event.readable) || self.first_register {
            self.first_register = false;
            Some(event)
        } else {
            None
        }
    }

    /// Deregisters interest in the reader.
    pub fn deregister<P>(&self, interest: &mut Registration<P>)
        ensures
            *final(interest) == old(interest).without_interest(),
    {
        interest.deregister();
    }

    /// Tries to read: moves the next bytes of the pipe to the front of `buf`, and says how
    /// many there were. Where nothing is to be had now, `waker` is left with the pipe, or has
    /// been woken already.
    pub fn try_read(&mut self, waker: &Waker, buf: &mut [u8]) -> (n: usize)
        ensures
            n <= old(buf)@.len(),
            n <= pipe::reader_capacity(old(self).end()),
            n <= pipe::bytes_to_read(old(self).end()).len(),
            final(buf)@ == pipe::bytes_to_read(old(self).end()).take(n as int) + old(buf)@.skip(
                n as int,
            ),
            pipe::bytes_to_read(final(self).end()) == pipe::bytes_to_read(old(self).end()).skip(
                n as int,
            ),
            pipe::reader_capacity(final(self).end()) == pipe::reader_capacity(old(self).end()),
            n == 0 && old(buf)@.len() > 0 ==> pipe::reader_waits(final(self).end(), *waker),
            0 < n < old(buf)@.len() ==> pipe::read_up(final(self).end()),
            final(self).first_register() == old(self).first_register(),
    {
        count_moved(pipe::drain_bytes(&mut self.pipe, waker, buf))
    }
}

/// The terminal's end of a pipe that a worker thread drains.
pub struct UnblockedWriter {
    /// The pipe that is written to.
    pipe: piper::Writer,
}

impl UnblockedWriter {
    /// The end of the pipe that this writer holds.
    pub closed spec fn end(&self) -> piper::Writer {
        self.pipe
    }

    /// The event that a registration sends by itself, where `has_room` says whether the pipe
    /// can take something.
    pub open spec fn sent_on_register(event: Event, has_room: bool) -> Option<Event> {
        if has_room && event.writable {
            Some(event)
        } else {
            None
        }
    }

    /// Can `sent` be what a registration sends by itself, for some room that the pipe may have?
    pub open spec fn may_send_on_register(event: Event, sent: Option<Event>) -> bool {
        sent == Self::sent_on_register(event, true) || sent == Self::sent_on_register(event, false)
    }

    /// Sets up a writer over a new pipe: the writer, the registration that goes with it, and
    /// the end of the pipe for the thread that drains it.
    pub fn new<P>(pipe_capacity: usize) -> (res: (Self, Registration<P>, piper::Reader))
        requires
            0 < pipe_capacity,
            pipe_capacity * 2 <= usize::MAX,
        ensures
            res.1.interest is None,
            res.1.end == PipeEnd::Writer,
            pipe::writer_capacity(res.0.end()) == pipe_capacity,
            pipe::reader_capacity(res.2) == pipe_capacity,
            pipe::bytes_to_read(res.2).is_prefix_of(pipe::bytes_to_write(res.0.end())),
            pipe::bytes_to_write(res.0.end()).len() <= pipe::bytes_to_read(res.2).len()
                + pipe_capacity,
    {
        let (reader, writer) = pipe::open_pipe(pipe_capacity);
        let interest = Registration::new(PipeEnd::Writer);
        (UnblockedWriter { pipe: writer }, interest, reader)
    }

    /// Registers interest in the writer. The result is an event to send to the poller at
    /// once.
    pub fn register<P>(
        &self,
        interest: &mut Registration<P>,
        poller: &Arc<P>,
        event: Event,
        mode: PollMode,
    ) -> (sent: Option<Event>)
        ensures
            *final(interest) == old(interest).with_interest(*poller, event, mode),
            Self::may_send_on_register(event, sent),
            sent is Some ==> pipe::has_room(self.end()),
            sent is None && event.writable ==> pipe::found_full(self.end()),
    {
        interest.register(poller, event, mode);
        let has_room = !pipe::is_full(&self.pipe);
        Self::start_off(event, has_room)
    }

    /// Decides whether a registration sends its event by itself: it does if there is room
    /// for data.
    pub fn start_off(event: Event, has_room: bool) -> (sent: Option<Event>)
        ensures
            sent == Self::sent_on_register(event, has_room),
    {
        if has_room && event.writable {
            Some(event)
        } else {
            None
        }
    }

    /// Deregisters interest in the writer.
    pub fn deregister<P>(&self, interest: &mut Registration<P>)
        ensures
            *final(interest) == old(interest).without_interest(),
    {
        interest.deregister();
    }

    /// Tries to write: puts bytes from the front of `buf` into the pipe, and says how many.
    /// Where there is no room now, `waker` is left with the pipe, or has been woken already;
    /// a pipe that is closed takes nothing any more.
    pub fn try_write(&mut self, waker: &Waker, buf: &[u8]) -> (n: usize)
        ensures
            n <= buf@.len(),
            n <= pipe::writer_capacity(old(self).end()),
            pipe::bytes_to_write(old(self).end()) == buf@.take(n as int) + pipe::bytes_to_write(
                final(self).end(),
            ),
            pipe::writer_capacity(final(self).end()) == pipe::writer_capacity(old(self).end()),
            n == 0 && buf@.len() > 0 ==> pipe::writer_waits(final(self).end(), *waker)
                || pipe::writer_found_closed(final(self).end()),
            0 < n < buf@.len() ==> pipe::filled_up(final(self).end())
                || pipe::writer_found_closed(final(self).end()),
    {
        count_moved(pipe::fill_bytes(&mut self.pipe, waker, buf))
    }
}

/// Every time the thread behind a reader has put bytes into the pipe, whoever waits to read
/// is told so. It does not matter what the pipe held before, nor whether anybody had found
/// it empty.
pub proof fn law_every_fill_is_announced<P, E>(n: usize, registration: Registration<P>)
    requires
        n > 0,
        registration.end == PipeEnd::Reader,
        registration.interest matches Some(interest) && interest.event.readable,
    ensures
        next_step(Progress::<E>::Moved(n), Step::NotifyAndContinue) == Step::<
            E,
        >::NotifyAndContinue,
        registration.packet_on_wake() == Some(
            Packet {
                poller: registration.interest->0.poller,
                event: registration.interest->0.event,
            },
        ),
{
}

/// The first registration of a reader sends its event by itself, whatever the event asks for
/// and whatever the pipe holds. A later one does so only for somebody who wants to read.
pub proof fn law_first_registration_is_sent(
    reader: UnblockedReader,
    event: Event,
    sent: Option<Event>,
)
    requires
        reader.may_send_on_register(event, sent),
    ensures
        reader.first_register() ==> sent == Some(event),
        !reader.first_register() && !event.readable ==> sent is None,
        sent is Some ==> sent == Some(event),
{
}

/// A worker thread sleeps exactly where its poll was pending, for only then is anything due to
/// wake it.
pub proof fn law_worker_sleeps_only_when_pending<E>(progress: Progress<E>, moved: Step<E>)
    requires
        moved is Continue || moved is NotifyAndContinue,
    ensures
        next_step(progress, moved) is Park <==> progress is Pending,
{
}

/// After bytes went through, however many, a worker thread goes on as it always does then: the
/// thread behind a writer tries again at once, and the thread behind a reader tells the
/// terminal first.
pub proof fn law_worker_goes_on_after_progress<E>(n: usize)
    requires
        n > 0,
    ensures
        next_step(Progress::<E>::Moved(n), Step::<E>::Continue) is Continue,
        next_step(Progress::<E>::Moved(n), Step::<E>::NotifyAndContinue) is NotifyAndContinue,
{
}

/// A worker thread announces only bytes that went through: it says nothing when it waits, ends
/// or was interrupted.
pub proof fn law_worker_announces_only_progress<E>(progress: Progress<E>)
    ensures
        next_step(progress, Step::<E>::NotifyAndContinue) is NotifyAndContinue <==> (
        progress matches Progress::Moved(n) && n > 0),
        !(next_step(progress, Step::<E>::Continue) is NotifyAndContinue),
{
}

/// A worker thread whose blocking call fails tries again if it was merely interrupted, and
/// otherwise reports the very error that it got. It reports nothing else.
pub proof fn law_worker_reports_its_error<E>(progress: Progress<E>, moved: Step<E>, error: E)
    requires
        moved is Continue || moved is NotifyAndContinue,
    ensures
        next_step(Progress::Failed { interrupted: true, error }, moved) is Continue,
        next_step(Progress::Failed { interrupted: false, error }, moved) == Step::ReportAndStop(
            error,
        ),
        next_step(progress, moved) is ReportAndStop ==> progress == (Progress::Failed {
            interrupted: false,
            error: next_step(progress, moved)->ReportAndStop_0,
        }),
        next_step(Progress::<E>::Moved(0), moved) is Stop,
{
}

/// A poll that is ready counts for the bytes that it reports, and one that is pending for none.
pub proof fn law_ready_polls_count(n: usize)
    ensures
        moved_by(Some(n)) == n,
        moved_by(None) == 0,
{
}

/// A reader's registration sends its event by itself exactly where there is data for somebody
/// who wants to read, or where it is the first. What it sends is the event as it was given.
pub proof fn law_reader_starts_off_with_data(reader: UnblockedReader, event: Event, has_data: bool)
    ensures
        reader.sent_on_register(event, has_data) is Some <==> (has_data && event.readable)
            || reader.first_register(),
        reader.sent_on_register(event, has_data) matches Some(sent) ==> sent == event,
{
}

/// A writer's registration sends its event by itself exactly where there is room for somebody
/// who wants to write. What it sends is the event as it was given.
pub proof fn law_writer_starts_off_with_room(event: Event, has_room: bool, sent: Option<Event>)
    ensures
        UnblockedWriter::sent_on_register(event, has_room) is Some <==> has_room
            && event.writable,
        UnblockedWriter::sent_on_register(event, has_room) matches Some(sent) ==> sent == event,
        UnblockedWriter::may_send_on_register(event, sent) ==> sent is None || (event.writable
            && sent == Some(event)),
{
}

/// Neither thread ends before the pipe or the blocking call says that no more bytes come
/// through: being interrupted, waiting and making progress do not end it.
pub proof fn law_worker_ends_only_at_the_end<E>(progress: Progress<E>, moved: Step<E>)
    requires
        moved is Continue || moved is NotifyAndContinue,
    ensures
        (next_step(progress, moved) is Stop || next_step(progress, moved) is ReportAndStop) <==> (
        progress == Progress::<E>::Moved(0) || (progress matches Progress::Failed {
            interrupted,
            ..
        } && !interrupted)),
{
}

/// What one end of a pipe has read is what the other end has written, byte for byte and in
/// that order, as far as both have come. And all that is ever read is what the other end
/// accepts, from its first byte on: nothing is lost, repeated, changed or reordered on the
/// way. `first_reader` and `first_writer` are the ends of a new pipe, and `read` and
/// `written` is what has gone through each of them since.
pub proof fn law_reads_follow_writes(
    first_reader: piper::Reader,
    reader: piper::Reader,
    read: Seq<u8>,
    first_writer: piper::Writer,
    writer: piper::Writer,
    written: Seq<u8>,
)
    requires
        pipe::bytes_to_read(first_reader).is_prefix_of(pipe::bytes_to_write(first_writer)),
        pipe::bytes_to_read(first_reader) == read + pipe::bytes_to_read(reader),
        pipe::bytes_to_write(first_writer) == written + pipe::bytes_to_write(writer),
    ensures
        read.is_prefix_of(pipe::bytes_to_write(first_writer)),
        read.len() <= written.len() ==> read.is_prefix_of(written),
        written.len() <= read.len() ==> written.is_prefix_of(read),
{
    let all_read = pipe::bytes_to_read(first_reader);
    let all_written = pipe::bytes_to_write(first_writer);
    assert forall|i: int| 0 <= i < read.len() implies read[i] == all_written[i] by {
        assert(all_read[i] == read[i]);
        assert(all_written.subrange(0, all_read.len() as int)[i] == all_written[i]);
    }
    assert forall|i: int| 0 <= i < read.len() && i < written.len() implies read[i]
        == written[i] by {
        assert(all_written[i] == written[i]);
    }
}

/// A pipe keeps back no more than its capacity: whatever was written beyond that has been
/// read or is read later. Once the reading end has nothing more to come, the bytes that it
/// never handed out fit in the pipe.
pub proof fn law_pipe_keeps_back_at_most_its_capacity(
    capacity: usize,
    first_reader: piper::Reader,
    reader: piper::Reader,
    read: Seq<u8>,
    first_writer: piper::Writer,
    writer: piper::Writer,
    written: Seq<u8>,
)
    requires
        pipe::bytes_to_write(first_writer).len() <= pipe::bytes_to_read(first_reader).len()
            + capacity,
        pipe::bytes_to_read(first_reader) == read + pipe::bytes_to_read(reader),
        pipe::bytes_to_write(first_writer) == written + pipe::bytes_to_write(writer),
    ensures
        written.len() <= read.len() + pipe::bytes_to_read(reader).len() + capacity,
        pipe::bytes_to_read(reader).len() == 0 ==> written.len() - read.len() <= capacity,
{
}

} // verus!
