use std::io;
use std::io::Read;
use std::sync::atomic::{AtomicBool, Ordering};
use std::sync::Arc;
use std::task::{Context, Poll, Wake, Waker};

use windows_tty::blocking::{
    count_moved, drain_step, fill_step, Progress, Step, UnblockedReader, UnblockedWriter,
};
use windows_tty::event::{Event, PollMode};
use windows_tty::registration::{PipeEnd, Registration};

struct Flag(AtomicBool);

impl Wake for Flag {
    fn wake(self: Arc<Self>) {
        self.0.store(true, Ordering::SeqCst);
    }
}

struct Endless;

impl Read for Endless {
    fn read(&mut self, buf: &mut [u8]) -> io::Result<usize> {
        buf.fill(b'x');
        Ok(buf.len())
    }
}

fn readable(key: usize) -> Event {
    Event { key, readable: true, writable: false, interrupt: false, priority: false }
}

fn writable(key: usize) -> Event {
    Event { key, readable: false, writable: true, interrupt: false, priority: false }
}

// Reads until `buf` is full; the pipe sometimes yields although it holds data.
fn read_all(reader: &mut UnblockedReader, buf: &mut [u8]) {
    let mut done = 0;
    while done < buf.len() {
        done += reader.try_read(Waker::noop(), &mut buf[done..]);
    }
}

fn write_all(writer: &mut UnblockedWriter, buf: &[u8]) {
    let mut done = 0;
    while done < buf.len() {
        done += writer.try_write(Waker::noop(), &buf[done..]);
    }
}

// Does what the thread behind a reader does until it would sleep for want of room, and
// collects what it sends.
fn fill_until_parked(
    writer: &mut piper::Writer,
    source: &mut Endless,
    registration: &mut Registration<u8>,
    sent: &mut Vec<Event>,
) {
    loop {
        let mut context = Context::from_waker(Waker::noop());
        let progress: Progress<io::Error> = match writer.poll_fill(&mut context, &mut *source) {
            Poll::Pending => Progress::Pending,
            Poll::Ready(Ok(n)) => Progress::Moved(n),
            Poll::Ready(Err(error)) => Progress::Failed {
                interrupted: error.kind() == io::ErrorKind::Interrupted,
                error,
            },
        };
        match fill_step(progress) {
            Step::NotifyAndContinue => {
                if let Some(packet) = registration.wake_by_ref() {
                    sent.push(packet.event);
                }
            },
            Step::Park => {
                if writer.is_full() {
                    return;
                }
            },
            Step::Continue => {},
            Step::Stop => panic!("the source has no end"),
            Step::ReportAndStop(error) => panic!("the source does not fail: {error}"),
        }
    }
}

// A read as big as the pipe empties it without ever finding it empty, so the pipe's own
// waker is never armed. Only the word after each fill wakes the reader again.
#[test]
fn a_drained_pipe_says_when_it_fills_again() {
    const CAPACITY: usize = 1 << 20;
    let poller = Arc::new(0u8);
    let (mut reader, mut registration, mut writer) = UnblockedReader::new(CAPACITY);
    let mut events: Vec<Event> = Vec::new();
    let event = readable(7);
    events.extend(reader.register(&mut registration, &poller, event, PollMode::Level));
    let mut source = Endless;
    fill_until_parked(&mut writer, &mut source, &mut registration, &mut events);
    let mut buf = vec![0u8; CAPACITY];
    let mut total = 0;
    for round in 0..64 {
        assert!(!events.is_empty(), "no notice after {total} bytes in {round} rounds");
        events.clear();
        let flag = Arc::new(Flag(AtomicBool::new(false)));
        let waker = Waker::from(flag.clone());
        let n = reader.try_read(&waker, &mut buf);
        total += n;
        if flag.0.load(Ordering::SeqCst) {
            // the pipe yielded, and wants to be asked again
            assert_eq!(n, 0);
            events.extend(registration.wake_by_ref().map(|packet| packet.event));
        } else {
            assert_eq!(n, CAPACITY);
        }
        fill_until_parked(&mut writer, &mut source, &mut registration, &mut events);
    }
    assert!(total > 0);
}

#[test]
fn the_thread_behind_a_reader() {
    assert!(matches!(fill_step::<u8>(Progress::Pending), Step::Park));
    assert!(matches!(fill_step::<u8>(Progress::Moved(0)), Step::Stop));
    assert!(matches!(fill_step::<u8>(Progress::Moved(1)), Step::NotifyAndContinue));
    let interrupted = Progress::Failed { interrupted: true, error: 5u8 };
    assert!(matches!(fill_step(interrupted), Step::Continue));
    let failed = Progress::Failed { interrupted: false, error: 5u8 };
    assert!(matches!(fill_step(failed), Step::ReportAndStop(5)));
}

#[test]
fn the_thread_behind_a_writer() {
    assert!(matches!(drain_step::<u8>(Progress::Pending), Step::Park));
    assert!(matches!(drain_step::<u8>(Progress::Moved(0)), Step::Stop));
    assert!(matches!(drain_step::<u8>(Progress::Moved(1)), Step::Continue));
    let interrupted = Progress::Failed { interrupted: true, error: 5u8 };
    assert!(matches!(drain_step(interrupted), Step::Continue));
    let failed = Progress::Failed { interrupted: false, error: 5u8 };
    assert!(matches!(drain_step(failed), Step::ReportAndStop(5)));
}

#[test]
fn a_pending_poll_moves_nothing() {
    assert_eq!(count_moved(None), 0);
    assert_eq!(count_moved(Some(0)), 0);
    assert_eq!(count_moved(Some(17)), 17);
}

#[test]
fn a_reader_reads_what_the_thread_wrote() {
    let (mut reader, registration, mut writer) = UnblockedReader::new::<u8>(16);
    assert!(registration.interest.is_none());
    assert_eq!(registration.end, PipeEnd::Reader);
    let mut buf = [9u8; 4];
    assert_eq!(reader.try_read(Waker::noop(), &mut buf), 0);
    assert_eq!(buf, [9, 9, 9, 9]);

    assert_eq!(writer.try_fill(&[1, 2, 3]), 3);
    let mut n = 0;
    while n == 0 {
        n = reader.try_read(Waker::noop(), &mut buf);
    }
    assert_eq!(n, 3);
    assert_eq!(buf, [1, 2, 3, 9]);

    assert_eq!(writer.try_fill(&[4, 5, 6, 7]), 4);
    read_all(&mut reader, &mut buf[..1]);
    read_all(&mut reader, &mut buf[1..]);
    assert_eq!(buf, [4, 5, 6, 7]);
}

#[test]
fn the_thread_reads_what_a_writer_wrote() {
    let (mut writer, registration, mut reader) = UnblockedWriter::new::<u8>(16);
    assert!(registration.interest.is_none());
    assert_eq!(registration.end, PipeEnd::Writer);
    write_all(&mut writer, &[1, 2, 3]);
    write_all(&mut writer, &[4, 5]);
    let mut buf = [0u8; 8];
    assert_eq!(reader.try_drain(&mut buf), 5);
    assert_eq!(buf, [1, 2, 3, 4, 5, 0, 0, 0]);
}

#[test]
fn a_pipe_has_the_capacity_that_was_asked_for() {
    let (_reader, _, mut thread) = UnblockedReader::new::<u8>(10);
    assert_eq!(thread.try_fill(&[0; 20]), 10);

    let (mut writer, _, thread) = UnblockedWriter::new::<u8>(10);
    let mut n = 0;
    while n == 0 {
        n = writer.try_write(Waker::noop(), &[7; 20]);
    }
    assert_eq!(n, 10);
    assert_eq!(writer.try_write(Waker::noop(), &[7; 20]), 0);
    assert!(thread.is_full());
}

#[test]
fn a_pipe_keeps_back_at_most_its_capacity() {
    let (mut reader, _, mut thread) = UnblockedReader::new::<u8>(3);
    let mut written = 0;
    let mut read = 0;
    let mut buf = [0u8; 2];
    for _ in 0..50 {
        written += thread.try_fill(&[1, 2, 3, 4, 5]);
        assert!(read <= written && written - read <= 3);
        read += reader.try_read(Waker::noop(), &mut buf);
        assert!(read <= written && written - read <= 3);
    }
}

// Where the pipe moves nothing, it has kept the waker or woken it, even if it only yields.
#[test]
fn a_poll_that_moves_nothing_keeps_the_waker() {
    for _ in 0..500 {
        let (mut reader, _, mut thread) = UnblockedReader::new::<u8>(2);
        thread.try_fill(&[1]);
        let flag = Arc::new(Flag(AtomicBool::new(false)));
        let n = reader.try_read(&Waker::from(flag.clone()), &mut [0; 2]);
        assert_eq!(flag.0.load(Ordering::SeqCst), n == 0);

        let (mut writer, _, _thread) = UnblockedWriter::new::<u8>(2);
        let flag = Arc::new(Flag(AtomicBool::new(false)));
        let n = writer.try_write(&Waker::from(flag.clone()), &[1]);
        assert_eq!(flag.0.load(Ordering::SeqCst), n == 0);
    }
}

// A part of the buffer is used only where the pipe gives or takes no more.
#[test]
fn a_transfer_goes_as_far_as_it_can() {
    let (mut writer, _, mut thread) = UnblockedWriter::new::<u8>(5);
    let mut n = 0;
    while n == 0 {
        n = writer.try_write(Waker::noop(), &[1, 2, 3, 4]);
    }
    assert_eq!(n, 4);
    n = 0;
    while n == 0 {
        n = writer.try_write(Waker::noop(), &[5, 6]);
    }
    assert_eq!(n, 1);
    assert!(thread.is_full());
    assert_eq!(thread.try_drain(&mut [0; 8]), 5);

    let (mut reader, _, mut thread) = UnblockedReader::new::<u8>(5);
    thread.try_fill(&[1, 2, 3, 4]);
    n = 0;
    while n == 0 {
        n = reader.try_read(Waker::noop(), &mut [0; 8]);
    }
    assert_eq!(n, 4);
    assert!(thread.is_empty());
}

#[test]
fn nothing_is_read_once_the_thread_is_gone() {
    let (mut reader, _, writer) = UnblockedReader::new::<u8>(4);
    drop(writer);
    assert_eq!(reader.try_read(Waker::noop(), &mut [0; 4]), 0);
    let (mut writer, _, thread) = UnblockedWriter::new::<u8>(4);
    drop(thread);
    assert_eq!(writer.try_write(Waker::noop(), &[0; 4]), 0);
}

#[test]
fn an_empty_pipe_calls_for_attention_later() {
    let (mut reader, _, mut writer) = UnblockedReader::new::<u8>(4);
    let flag = Arc::new(Flag(AtomicBool::new(false)));
    let waker = Waker::from(flag.clone());
    assert_eq!(reader.try_read(&waker, &mut [0; 4]), 0);
    assert!(!flag.0.load(Ordering::SeqCst));
    assert_eq!(writer.try_fill(&[1]), 1);
    assert!(flag.0.load(Ordering::SeqCst));
}

#[test]
fn a_full_pipe_calls_for_attention_later() {
    let (mut writer, _, mut thread) = UnblockedWriter::new::<u8>(2);
    write_all(&mut writer, &[1, 2]);
    let flag = Arc::new(Flag(AtomicBool::new(false)));
    let waker = Waker::from(flag.clone());
    assert_eq!(writer.try_write(&waker, &[3]), 0);
    assert!(!flag.0.load(Ordering::SeqCst));
    assert_eq!(thread.try_drain(&mut [0; 1]), 1);
    assert!(flag.0.load(Ordering::SeqCst));
}

#[test]
fn a_reader_announces_itself_the_first_time_and_when_it_has_data() {
    let poller = Arc::new(0u8);
    let (mut reader, mut registration, mut writer) = UnblockedReader::new(4);
    let mode = PollMode::Oneshot;
    assert_eq!(
        reader.register(&mut registration, &poller, writable(3), mode),
        Some(writable(3))
    );
    assert_eq!(reader.register(&mut registration, &poller, readable(4), mode), None);
    assert_eq!(registration.interest.as_ref().unwrap().event, readable(4));
    assert_eq!(registration.interest.as_ref().unwrap().mode, mode);

    writer.try_fill(&[1]);
    assert_eq!(
        reader.register(&mut registration, &poller, readable(5), mode),
        Some(readable(5))
    );
    assert_eq!(reader.register(&mut registration, &poller, writable(6), mode), None);

    reader.deregister(&mut registration);
    assert!(registration.interest.is_none());
}

#[test]
fn starting_off_goes_by_the_data() {
    let (mut reader, _, _writer) = UnblockedReader::new::<u8>(4);
    assert_eq!(reader.start_off(writable(1), false), Some(writable(1)));
    assert_eq!(reader.start_off(readable(1), false), None);
    assert_eq!(reader.start_off(readable(1), true), Some(readable(1)));
    assert_eq!(reader.start_off(writable(1), true), None);
    assert_eq!(UnblockedWriter::start_off(writable(1), true), Some(writable(1)));
    assert_eq!(UnblockedWriter::start_off(writable(1), false), None);
    assert_eq!(UnblockedWriter::start_off(readable(1), true), None);
}

#[test]
fn a_writer_announces_itself_when_it_has_room() {
    let poller = Arc::new(0u8);
    let (mut writer, mut registration, _thread) = UnblockedWriter::new(2);
    let mode = PollMode::Level;
    assert_eq!(
        writer.register(&mut registration, &poller, writable(3), mode),
        Some(writable(3))
    );
    assert_eq!(writer.register(&mut registration, &poller, readable(3), mode), None);
    write_all(&mut writer, &[1, 2]);
    assert_eq!(writer.register(&mut registration, &poller, writable(4), mode), None);
    assert_eq!(registration.interest.as_ref().unwrap().event, writable(4));
    writer.deregister(&mut registration);
    assert!(registration.interest.is_none());
}

#[test]
fn every_fill_is_announced() {
    let poller = Arc::new(0u8);
    let (mut reader, mut registration, mut writer) = UnblockedReader::new(2);
    reader.register(&mut registration, &poller, readable(7), PollMode::Level);
    for byte in [1u8, 2] {
        // the pipe is not empty the second time, and nobody has read from it
        let n = writer.try_fill(&[byte]);
        assert!(matches!(fill_step::<u8>(Progress::Moved(n)), Step::NotifyAndContinue));
        assert_eq!(registration.wake_by_ref().unwrap().event, readable(7));
    }
}
