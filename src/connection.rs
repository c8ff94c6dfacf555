//! Decisions of a non-blocking connection handler. The caller performs each
//! socket call, reports what came back as an [`IoOutcome`], and carries out
//! the action returned.
use vstd::prelude::*;

verus! {

/// Bytes the read buffer grows by when a read fills it.
pub const READ_GROWTH: usize = 1024;

/// What a non-blocking socket call came back with.
#[derive(Debug, Clone, Copy, PartialEq, Eq, Structural)]
pub enum IoOutcome {
    /// The call moved this many bytes.
    Transferred(usize),
    /// The socket is not ready for the operation.
    WouldBlock,
    /// The call was interrupted before it moved anything.
    Interrupted,
    /// Any other error.
    Failed,
}

/// What to do after trying to send a message.
#[derive(Debug, Clone, Copy, PartialEq, Eq, Structural)]
pub enum WriteAction {
    /// The whole message went out: listen for readable events only.
    Sent,
    /// Part of the message went out: fail with a short-write error.
    ShortWrite,
    /// Try the same write again.
    Retry,
    /// Not ready: wait for the next event.
    Wait,
    /// Fail with the socket's error.
    Fail,
}

/// What to do after one read.
#[derive(Debug, Clone, Copy, PartialEq, Eq, Structural)]
pub enum ReadAction {
    /// The peer closed its side: stop reading; the connection is done.
    Closed,
    /// Read again.
    Continue,
    /// Nothing more for now: wait for the next event.
    Wait,
    /// Fail with the socket's error.
    Fail,
}

/// How far the reading of one readable event has come.
#[derive(Debug, Clone, Copy, PartialEq, Eq, Structural)]
pub struct ReadProgress {
    /// Bytes received so far.
    pub bytes_read: usize,
    /// Size of the receive buffer.
    pub capacity: usize,
}

/// There is room left in the buffer, and it can still grow once.
pub open spec fn progress_ok(p: ReadProgress) -> bool {
    &&& p.bytes_read < p.capacity
    &&& p.capacity + READ_GROWTH <= usize::MAX
}

/// The action after trying to send `len` bytes.
pub open spec fn write_action(outcome: IoOutcome, len: usize) -> WriteAction {
    match outcome {
        IoOutcome::Transferred(n) => if n < len {
            WriteAction::ShortWrite
        } else {
            WriteAction::Sent
        },
        IoOutcome::WouldBlock => WriteAction::Wait,
        IoOutcome::Interrupted => WriteAction::Retry,
        IoOutcome::Failed => WriteAction::Fail,
    }
}

/// Decides what follows an attempt to send a message of `len` bytes.
pub fn on_write(outcome: IoOutcome, len: usize) -> (r: WriteAction)
    ensures
        r == write_action(outcome, len),
{
    match outcome {
        IoOutcome::Transferred(n) => if n < len {
            WriteAction::ShortWrite
        } else {
            WriteAction::Sent
        },
        IoOutcome::WouldBlock => WriteAction::Wait,
        IoOutcome::Interrupted => WriteAction::Retry,
        IoOutcome::Failed => WriteAction::Fail,
    }
}

/// A fresh read progress over a buffer of `capacity` bytes.
pub fn start_read(capacity: usize) -> (r: ReadProgress)
    requires
        0 < capacity,
        capacity + READ_GROWTH <= usize::MAX,
    ensures
        r == (ReadProgress { bytes_read: 0, capacity }),
        progress_ok(r),
{
    ReadProgress { bytes_read: 0, capacity }
}

/// Decides what follows one read into the free part of the buffer. A read of
/// zero bytes means the peer closed. After any other read the count grows by
/// what was read, and a buffer that this read filled grows by `READ_GROWTH`,
/// so that the next read always has room.
pub fn on_read(p: ReadProgress, outcome: IoOutcome) -> (r: (ReadProgress, ReadAction))
    requires
        progress_ok(p),
        outcome matches IoOutcome::Transferred(n) ==> n <= p.capacity - p.bytes_read,
    ensures
        r.0.bytes_read == p.bytes_read + (match outcome {
            IoOutcome::Transferred(n) => n,
            _ => 0,
        }),
        r.0.capacity == if r.0.bytes_read == p.capacity {
            p.capacity + READ_GROWTH
        } else {
            p.capacity as int
        },
        r.0.bytes_read < r.0.capacity,
        r.1 == match outcome {
            IoOutcome::Transferred(n) => if n == 0 {
                ReadAction::Closed
            } else {
                ReadAction::Continue
            },
            IoOutcome::WouldBlock => ReadAction::Wait,
            IoOutcome::Interrupted => ReadAction::Continue,
            IoOutcome::Failed => ReadAction::Fail,
        },
{
    match outcome {
        IoOutcome::Transferred(n) => {
            if n == 0 {
                return (p, ReadAction::Closed);
            }
            let bytes_read = p.bytes_read + n;
            let capacity = if bytes_read == p.capacity {
                p.capacity + READ_GROWTH
            } else {
                p.capacity
            };
            (ReadProgress { bytes_read, capacity }, ReadAction::Continue)
        },
        IoOutcome::WouldBlock => (p, ReadAction::Wait),
        IoOutcome::Interrupted => (p, ReadAction::Continue),
        IoOutcome::Failed => (p, ReadAction::Fail),
    }
}

/// Hands out the current connection token and moves on to the next one.
pub fn next_token(current: &mut usize) -> (r: usize)
    requires
        *old(current) < usize::MAX,
    ensures
        r == *old(current),
        *final(current) == *old(current) + 1,
{
    let r = *current;
    *current = *current + 1;
    r
}

} // verus!
