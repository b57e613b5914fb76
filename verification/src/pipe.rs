//! The bounded byte pipe between the terminal and a worker thread, as `piper` provides it.
//!
//! A pipe has two ends that live on different threads, so what one end finds in it at a
//! given moment rests on what the other end has done by then. What can be said of an end is
//! which bytes pass through it and in which order, and what it has found the pipe to be like.

use std::task::{Context, Poll, Waker};

use vstd::prelude::*;

verus! {

/// The reading end of a pipe.
#[verifier::external_type_specification]
#[verifier::external_body]
pub struct ExReader(piper::Reader);

/// The writing end of a pipe.
#[verifier::external_type_specification]
#[verifier::external_body]
pub struct ExWriter(piper::Writer);

/// The handle through which a pipe calls for attention.
#[verifier::external_type_specification]
#[verifier::external_body]
pub struct ExWaker(std::task::Waker);

/// The bytes that a reading end still hands out in the rest of its life, the next one first.
///
/// Like the items that an iterator has yet to yield, they are fixed in the model before the
/// other end has written them.
pub uninterp spec fn bytes_to_read(end: piper::Reader) -> Seq<u8>;

/// The bytes that a writing end still accepts in the rest of its life, the next one first.
pub uninterp spec fn bytes_to_write(end: piper::Writer) -> Seq<u8>;

/// How many bytes the pipe of this reading end was made to hold.
pub uninterp spec fn reader_capacity(end: piper::Reader) -> nat;

/// How many bytes the pipe of this writing end was made to hold.
pub uninterp spec fn writer_capacity(end: piper::Writer) -> nat;

/// When the reading end was last polled, was `waker` left with the pipe, to be woken when
/// bytes arrive or the writing end goes away, or woken on the spot?
pub uninterp spec fn reader_waits(end: piper::Reader, waker: Waker) -> bool;

/// When the writing end was last polled, was `waker` left with the pipe, to be woken when
/// room is made or the reading end goes away, or woken on the spot?
pub uninterp spec fn writer_waits(end: piper::Writer, waker: Waker) -> bool;

/// When the writing end was last polled, was the pipe found closed?
pub uninterp spec fn writer_found_closed(end: piper::Writer) -> bool;

/// When the reading end was last polled, did it hand out every byte that it had seen arrive?
pub uninterp spec fn read_up(end: piper::Reader) -> bool;

/// When the writing end was last polled, did it use up all the room that it had seen?
pub uninterp spec fn filled_up(end: piper::Writer) -> bool;

/// Does the pipe hold a byte at some moment while this end stays as it is?
///
/// Only the reading end takes bytes out. So once the pipe holds one, it does so until this
/// end reads, whatever the thread at the other end does.
pub uninterp spec fn has_data(end: piper::Reader) -> bool;

/// Is the pipe empty at some moment while this end stays as it is?
///
/// Bytes that arrive later do not change that it was.
pub uninterp spec fn found_empty(end: piper::Reader) -> bool;

/// Does the pipe have room for a byte at some moment while this end stays as it is?
///
/// Only the writing end uses room up. So once there is some, it stays until this end writes,
/// whatever the thread at the other end does.
pub uninterp spec fn has_room(end: piper::Writer) -> bool;

/// Is the pipe full at some moment while this end stays as it is?
///
/// Room that is made later does not change that it was.
pub uninterp spec fn found_full(end: piper::Writer) -> bool;

/// Makes a pipe, by `piper::pipe`.
///
/// Claimed of it: both ends have the capacity that was asked for, and what comes out at the
/// reading end is what went in at the writing end, in that order. The reading end may stop
/// short of what was written, for bytes can be left behind when the pipe closes, but by no
/// more than the capacity. `pipe` panics on a capacity of zero and on one whose double does
/// not fit in a `usize`.
///
/// That a byte goes in before it comes out is left unsaid: it relates the two ends at one
/// moment, and each call sees one end only.
#[verifier::external_body]
pub(crate) fn open_pipe(capacity: usize) -> (ends: (piper::Reader, piper::Writer))
    requires
        0 < capacity,
        capacity * 2 <= usize::MAX,
    ensures
        bytes_to_read(ends.0).is_prefix_of(bytes_to_write(ends.1)),
        bytes_to_write(ends.1).len() <= bytes_to_read(ends.0).len() + capacity,
        reader_capacity(ends.0) == capacity,
        writer_capacity(ends.1) == capacity,
{
    piper::pipe(capacity)
}

/// Takes bytes out of a pipe, by `piper::Reader::poll_drain_bytes`.
///
/// Claimed of it: it moves the next bytes of the pipe to the front of `buf`, no more than
/// fit there or in the pipe, and reports how many; where it is pending it moves none. Where
/// it is pending, or finds nothing for a buffer with room in it, it has left the waker with
/// the pipe or woken it. Where it is not pending and does not fill the buffer, no byte that
/// it had seen is left. How many bytes there are is left unsaid, and whether the call is
/// pending: both rest on the thread at the other end, and the call also yields now and then
/// by chance. It can run the code of this waker and of the one that waits at the other end;
/// should that code panic, so does the call.
#[verifier::external_body]
pub(crate) fn drain_bytes(end: &mut piper::Reader, waker: &Waker, buf: &mut [u8]) -> (polled:
    Option<usize>)
    ensures
        match polled {
            Some(n) => {
                &&& n <= old(buf)@.len()
                &&& n <= reader_capacity(*old(end))
                &&& n <= bytes_to_read(*old(end)).len()
                &&& final(buf)@ == bytes_to_read(*old(end)).take(n as int) + old(buf)@.skip(
                    n as int,
                )
                &&& bytes_to_read(*final(end)) == bytes_to_read(*old(end)).skip(n as int)
            },
            None => {
                &&& final(buf)@ == old(buf)@
                &&& bytes_to_read(*final(end)) == bytes_to_read(*old(end))
            },
        },
        polled is None || (polled == Some(0usize) && old(buf)@.len() > 0) ==> reader_waits(
            *final(end),
            *waker,
        ),
        polled matches Some(n) && n < old(buf)@.len() ==> read_up(*final(end)),
        reader_capacity(*final(end)) == reader_capacity(*old(end)),
{
    match end.poll_drain_bytes(&mut Context::from_waker(waker), buf) {
        Poll::Pending => None,
        Poll::Ready(n) => Some(n),
    }
}

/// Puts bytes into a pipe, by `piper::Writer::poll_fill_bytes`.
///
/// Claimed of it: it accepts bytes from the front of `buf`, no more than the pipe can hold,
/// and reports how many; where it is pending it accepts none, and has left the waker with
/// the pipe or woken it. It accepts nothing of a buffer with bytes in it, without being
/// pending, only where it finds the pipe closed; and it accepts a part only of a buffer where
/// no room that it had seen is left, or the pipe was closed meanwhile. How many bytes it
/// accepts is left unsaid, and whether it is pending: both rest on the thread at the other
/// end, and the call also yields now and then by chance. It can run the code of this waker and of the one that
/// waits at the other end; should that code panic, so does the call.
#[verifier::external_body]
pub(crate) fn fill_bytes(end: &mut piper::Writer, waker: &Waker, buf: &[u8]) -> (polled: Option<
    usize,
>)
    ensures
        match polled {
            Some(n) => {
                &&& n <= buf@.len()
                &&& n <= writer_capacity(*old(end))
                &&& bytes_to_write(*old(end)) == buf@.take(n as int) + bytes_to_write(*final(end))
            },
            None => bytes_to_write(*final(end)) == bytes_to_write(*old(end)),
        },
        polled is None ==> writer_waits(*final(end), *waker),
        polled == Some(0usize) && buf@.len() > 0 ==> writer_found_closed(*final(end)),
        polled matches Some(n) && n < buf@.len() ==> filled_up(*final(end))
            || writer_found_closed(*final(end)),
        writer_capacity(*final(end)) == writer_capacity(*old(end)),
{
    match end.poll_fill_bytes(&mut Context::from_waker(waker), buf) {
        Poll::Pending => None,
        Poll::Ready(n) => Some(n),
    }
}

/// Looks whether a pipe holds no byte, by `piper::Reader::is_empty`.
///
/// Claimed of it: where it says no, the pipe holds a byte, and goes on to do so until this
/// end reads; where it says yes, the pipe was empty when it looked, though the thread at the
/// other end may have written since.
#[verifier::external_body]
pub(crate) fn is_empty(end: &piper::Reader) -> (empty: bool)
    ensures
        !empty ==> has_data(*end),
        empty ==> found_empty(*end),
{
    end.is_empty()
}

/// Looks whether a pipe has no room left, by `piper::Writer::is_full`.
///
/// Claimed of it: where it says no, the pipe has room, and goes on to have it until this end
/// writes; where it says yes, the pipe was full when it looked, though the thread at the
/// other end may have read since.
#[verifier::external_body]
pub(crate) fn is_full(end: &piper::Writer) -> (full: bool)
    ensures
        !full ==> has_room(*end),
        full ==> found_full(*end),
{
    end.is_full()
}

} // verus!
