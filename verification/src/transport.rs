//! The I/O that the machines ask for, and what came of it.

use vstd::prelude::*;

use crate::duration::Duration;
use crate::error::{outcome, Error, Result};

verus! {

/// Default limit for payloads: 10 MB.
pub const DEFAULT_MAX_BUFFER_SIZE: usize = 10_485_760;

/// The time in which the size of a response must begin to follow its status, in
/// milliseconds. Where it does not, the response has no payload.
pub const SIZE_WAIT_MILLIS: u64 = 10;

/// The limit in force where `requested` is asked for; zero stands for the default.
pub open spec fn buffer_limit(requested: usize) -> usize {
    if requested > 0 {
        requested
    } else {
        DEFAULT_MAX_BUFFER_SIZE
    }
}

/// The limit in force where `requested` is asked for; zero stands for the default.
pub fn choose_buffer_limit(requested: usize) -> (limit: usize)
    ensures
        limit == buffer_limit(requested),
        requested > 0 ==> limit == requested,
        requested == 0 ==> limit == 10_485_760,
{
    if requested > 0 {
        requested
    } else {
        DEFAULT_MAX_BUFFER_SIZE
    }
}

/// A piece of I/O on a connection. `B` is the type of byte strings and `D` that of
/// spans of time: `Vec<u8>` and `Duration` in programs, a sequence and a number of
/// nanoseconds in contracts.
#[derive(Debug)]
pub enum Action<B = Vec<u8>, D = Duration> {
    /// Write all of `bytes`, within `timeout` where there is one.
    Write { bytes: B, timeout: Option<D> },
    /// Flush what was written.
    Flush,
    /// Read exactly `len` bytes, within `timeout` where there is one.
    Read { len: usize, timeout: Option<D> },
}

/// What came of an action.
#[derive(Debug)]
pub enum Event<B = Vec<u8>, S = String> {
    /// The write or the flush was done.
    Completed,
    /// The read gave these bytes.
    Received(B),
    /// The transport failed.
    Failed(S),
    /// The action's timeout ran out.
    TimedOut,
}

/// Where a machine stands once it was advanced.
pub enum Progress<M, T, S = String> {
    /// More I/O is needed.
    Pending(M),
    /// The operation is over.
    Finished(Result<T, Error<S>>),
}

/// A span of time by its length, where there is one.
pub open spec fn span(timeout: Option<Duration>) -> Option<nat> {
    match timeout {
        Some(limit) => Some(limit@),
        None => None,
    }
}

impl View for Action {
    type V = Action<Seq<u8>, nat>;

    open spec fn view(&self) -> Action<Seq<u8>, nat> {
        match self {
            Action::Write { bytes, timeout } => Action::Write {
                bytes: bytes@,
                timeout: span(*timeout),
            },
            Action::Flush => Action::Flush,
            Action::Read { len, timeout } => Action::Read { len: *len, timeout: span(*timeout) },
        }
    }
}

impl View for Event {
    type V = Event<Seq<u8>, Seq<char>>;

    open spec fn view(&self) -> Event<Seq<u8>, Seq<char>> {
        match self {
            Event::Completed => Event::Completed,
            Event::Received(bytes) => Event::Received(bytes@),
            Event::Failed(text) => Event::Failed(text@),
            Event::TimedOut => Event::TimedOut,
        }
    }
}

impl<M: View, T: View> View for Progress<M, T> {
    type V = Progress<M::V, T::V, Seq<char>>;

    open spec fn view(&self) -> Progress<M::V, T::V, Seq<char>> {
        match self {
            Progress::Pending(machine) => Progress::Pending(machine@),
            Progress::Finished(result) => Progress::Finished(outcome(*result)),
        }
    }
}

/// A payload's size as the size field of a header carries it: its low 32 bits.
pub open spec fn size_field(len: nat) -> u32 {
    (len % 0x1_0000_0000) as u32
}

/// A payload's size as the size field of a header carries it: its low 32 bits.
pub fn payload_size_field(len: usize) -> (size: u32)
    ensures
        size == size_field(len as nat),
        size == len as int % 0x1_0000_0000,
        len <= u32::MAX ==> size == len,
{
    let wide: u64 = len as u64;
    (wide % 0x1_0000_0000) as u32
}

/// The limit in force is the one asked for, or ten mebibytes where none is. The size field
/// holds a size as it is up to 32 bits, and the low 32 bits of a greater one. The size of a
/// response is waited for ten milliseconds.
pub proof fn limits_in_numbers(requested: usize, len: nat)
    ensures
        requested > 0 ==> buffer_limit(requested) == requested,
        buffer_limit(0) == 10 * 1024 * 1024,
        DEFAULT_MAX_BUFFER_SIZE == 10 * 1024 * 1024,
        len <= u32::MAX ==> size_field(len) == len,
        (len - size_field(len)) % 0x1_0000_0000 == 0,
        SIZE_WAIT_MILLIS == 10,
{
    assert(len == (len / 0x1_0000_0000) * 0x1_0000_0000 + len % 0x1_0000_0000);
}

/// Contracts speak of I/O, of what came of it and of progress part by part.
pub proof fn io_is_viewed_whole(
    bytes: Vec<u8>,
    len: usize,
    limit: Duration,
    timeout: Option<Duration>,
    text: String,
    error: Error,
)
    ensures
        span(Some(limit)) == Some(limit@),
        span(None) is None,
        (Action::<Vec<u8>, Duration>::Write { bytes, timeout })@ == (Action::<
            Seq<u8>,
            nat,
        >::Write { bytes: bytes@, timeout: span(timeout) }),
        Action::<Vec<u8>, Duration>::Flush@ is Flush,
        (Action::<Vec<u8>, Duration>::Read { len, timeout })@ == (Action::<Seq<u8>, nat>::Read {
            len,
            timeout: span(timeout),
        }),
        Event::<Vec<u8>, String>::Completed@ is Completed,
        Event::<Vec<u8>, String>::Received(bytes)@ == Event::<Seq<u8>, Seq<char>>::Received(bytes@),
        Event::<Vec<u8>, String>::Failed(text)@ == Event::<Seq<u8>, Seq<char>>::Failed(text@),
        Event::<Vec<u8>, String>::TimedOut@ is TimedOut,
        Progress::<Vec<u8>, Vec<u8>>::Pending(bytes)@ == Progress::<
            Seq<u8>,
            Seq<u8>,
            Seq<char>,
        >::Pending(bytes@),
        Progress::<Vec<u8>, Vec<u8>>::Finished(Ok(bytes))@ == Progress::<
            Seq<u8>,
            Seq<u8>,
            Seq<char>,
        >::Finished(Ok(bytes@)),
        Progress::<Vec<u8>, Vec<u8>>::Finished(Err(error))@ == Progress::<
            Seq<u8>,
            Seq<u8>,
            Seq<char>,
        >::Finished(Err(error@)),
{
}

} // verus!
