//! The framing engine: buffers raw bytes and turns them into frames.
//!
//! Choices where the behaviour could go either way:
//! - One `write` extracts at most one frame. Bytes past that frame stay
//!   pending and are looked at by the next `write`.
//! - No cap is put on the number of queued frames or on the pending bytes.
//!   The capacities below are only what is reserved up front. The one
//!   rejection for size is a `write` whose bytes, added to those pending,
//!   would exceed `usize::MAX` (`StreamBytesFull`).
//! - `Failure` is terminal: every `write` fails and changes nothing. There is no
//!   way back; the caller discards the engine and makes a new one.
use std::collections::VecDeque;
use vstd::prelude::*;

use crate::error::{stream_error_of, NetStreamErr, NetStreamErrorType};
use crate::frame::{
    be_u16, parse_header, FrameModel, NetFrame, NetFrameMetadata, NETFRAME_DELIMITER,
    NETFRAME_HEADER_SIZE_BYTES,
};

verus! {

/// Frames reserved for up front in a new engine.
pub const NETSTREAM_EXTERNAL_CAPACITY: usize = 256;

/// Pending bytes reserved for up front in a new engine.
pub const NETSTREAM_INTERNAL_CAPACITY: usize = 196605;

/// Where the engine stands between two writes.
#[derive(Debug, Clone, Copy, Default, PartialEq, Eq, Structural)]
pub enum NetStreamState {
    /// No partial frame is buffered.
    #[default]
    Empty,
    /// The pending buffer holds the start of a frame not yet complete.
    InProgress,
    /// Terminal: no write is accepted.
    Failure,
}

/// The engine as a mathematical value.
pub struct StreamModel {
    /// Bytes received and not yet part of a decoded frame.
    pub pending: Seq<u8>,
    /// Decoded frames, oldest first.
    pub decoded: Seq<FrameModel>,
    pub state: NetStreamState,
}

/// A frame stream: feed it raw bytes, take decoded frames out.
pub trait FramingStream: Send + Sync {
    /// Takes the oldest decoded frame.
    fn next(&mut self) -> Result<NetFrame, NetStreamErr>;

    /// Feeds raw bytes; framing happens on each write.
    fn write(&mut self, data: Vec<u8>) -> Result<(), NetStreamErr>;
}

/// A de-framer for one byte stream.
#[derive(Debug, Default, Clone, PartialEq)]
pub struct NetStream {
    pub frames: VecDeque<NetFrame>,
    pub buffer: Vec<u8>,
    pub state: NetStreamState,
}

impl View for NetStream {
    type V = StreamModel;

    open spec fn view(&self) -> StreamModel {
        StreamModel {
            pending: self.buffer@,
            decoded: self.frames@.map_values(|f: NetFrame| f@),
            state: self.state,
        }
    }
}

/// Only a partial frame leaves bytes pending: with no partial frame, nothing is.
pub open spec fn wf(m: StreamModel) -> bool {
    m.state == NetStreamState::Empty ==> m.pending.len() == 0
}

/// The number of bytes a frame with this header occupies, header included.
pub open spec fn frame_end(meta: NetFrameMetadata) -> int {
    NETFRAME_HEADER_SIZE_BYTES + meta.size
}

/// The bytes a write parses its header from: in `Empty` the new bytes alone,
/// otherwise the pending bytes followed by the new ones.
pub open spec fn parse_input(m: StreamModel, data: Seq<u8>) -> Seq<u8> {
    if m.state == NetStreamState::Empty {
        data
    } else {
        m.pending + data
    }
}

/// A write is turned away before any parsing.
pub open spec fn write_refused(m: StreamModel, data: Seq<u8>) -> bool {
    m.state == NetStreamState::Failure || m.pending.len() + data.len() > usize::MAX
}

/// A write too short to make a header, even with what is pending.
pub open spec fn write_too_short(m: StreamModel, data: Seq<u8>) -> bool {
    m.pending.len() + data.len() < NETFRAME_HEADER_SIZE_BYTES
}

/// The frames one write adds to the queue: none or one.
pub open spec fn write_emits(m: StreamModel, data: Seq<u8>) -> Seq<FrameModel> {
    let buf = parse_input(m, data);
    if write_refused(m, data) || write_too_short(m, data) {
        Seq::empty()
    } else {
        match parse_header(buf) {
            Ok(meta) => if buf.len() >= frame_end(meta) {
                seq![FrameModel { tag: meta.tag, payload: buf.subrange(4, frame_end(meta)) }]
            } else {
                Seq::empty()
            },
            Err(_) => Seq::empty(),
        }
    }
}

/// The engine and the result after writing `data`.
pub open spec fn write_step(m: StreamModel, data: Seq<u8>) -> (StreamModel, Result<(), NetStreamErr>) {
    let buf = parse_input(m, data);
    let decoded = m.decoded + write_emits(m, data);
    if m.state == NetStreamState::Failure {
        (m, Err(NetStreamErr { category: NetStreamErrorType::StreamFailure }))
    } else if m.pending.len() + data.len() > usize::MAX {
        (m, Err(NetStreamErr { category: NetStreamErrorType::StreamBytesFull }))
    } else if write_too_short(m, data) {
        (StreamModel { pending: m.pending + data, state: NetStreamState::InProgress, ..m }, Ok(()))
    } else {
        match parse_header(buf) {
            Err(e) => {
                let pending = if m.state == NetStreamState::Empty {
                    m.pending
                } else {
                    buf
                };
                (StreamModel { pending, ..m }, Err(stream_error_of(e)))
            },
            Ok(meta) => if buf.len() < frame_end(meta) {
                (
                    StreamModel { pending: m.pending + data, state: NetStreamState::InProgress, ..m },
                    Ok(()),
                )
            } else if buf.len() == frame_end(meta) {
                let pending = if m.state == NetStreamState::Empty {
                    m.pending
                } else {
                    Seq::empty()
                };
                (StreamModel { pending, decoded, state: NetStreamState::Empty }, Ok(()))
            } else {
                (
                    StreamModel {
                        pending: buf.subrange(frame_end(meta), buf.len() as int),
                        decoded,
                        state: NetStreamState::InProgress,
                    },
                    Ok(()),
                )
            },
        }
    }
}

/// The engine and the result after taking the oldest frame.
pub open spec fn next_step(m: StreamModel) -> (StreamModel, Result<FrameModel, NetStreamErr>) {
    if m.decoded.len() == 0 {
        (m, Err(NetStreamErr { category: NetStreamErrorType::StreamMessageCountZero }))
    } else {
        (StreamModel { decoded: m.decoded.drop_first(), ..m }, Ok(m.decoded[0]))
    }
}

/// A frame result as a mathematical value.
pub open spec fn frame_result_view(r: Result<NetFrame, NetStreamErr>) -> Result<FrameModel, NetStreamErr> {
    match r {
        Ok(f) => Ok(f@),
        Err(e) => Err(e),
    }
}

/// The engine after each chunk of `chunks` is written in turn.
pub open spec fn run_writes(m: StreamModel, chunks: Seq<Seq<u8>>) -> StreamModel
    decreases chunks.len(),
{
    if chunks.len() == 0 {
        m
    } else {
        run_writes(write_step(m, chunks[0]).0, chunks.drop_first())
    }
}

/// The frames those writes complete, in the order they complete.
pub open spec fn emitted(m: StreamModel, chunks: Seq<Seq<u8>>) -> Seq<FrameModel>
    decreases chunks.len(),
{
    if chunks.len() == 0 {
        Seq::empty()
    } else {
        write_emits(m, chunks[0]) + emitted(write_step(m, chunks[0]).0, chunks.drop_first())
    }
}

/// The frames that `n` calls of `next` hand out, up to the first failing call.
pub open spec fn drain(m: StreamModel, n: nat) -> Seq<FrameModel>
    decreases n,
{
    if n == 0 {
        Seq::empty()
    } else {
        match next_step(m).1 {
            Ok(f) => seq![f] + drain(next_step(m).0, (n - 1) as nat),
            Err(_) => Seq::empty(),
        }
    }
}

/// The wire bytes of a frame: header with big-endian length, then payload.
pub open spec fn frame_bytes(tag: u8, payload: Seq<u8>) -> Seq<u8> {
    seq![NETFRAME_DELIMITER, tag, (payload.len() / 256) as u8, (payload.len() % 256) as u8]
        + payload
}

/// A write only ever appends to the queue of decoded frames.
pub proof fn lemma_write_appends(m: StreamModel, data: Seq<u8>)
    ensures
        write_step(m, data).0.decoded == m.decoded + write_emits(m, data),
        write_emits(m, data).len() <= 1,
{
    if write_emits(m, data).len() == 0 {
        assert(m.decoded + write_emits(m, data) =~= m.decoded);
    }
}

/// Writing chunk after chunk leaves the frames decoded before untouched and
/// adds the frames those writes complete, in order.
pub proof fn lemma_run_writes(m: StreamModel, chunks: Seq<Seq<u8>>)
    ensures
        run_writes(m, chunks).decoded == m.decoded + emitted(m, chunks),
    decreases chunks.len(),
{
    if chunks.len() == 0 {
        assert(m.decoded + emitted(m, chunks) =~= m.decoded);
    } else {
        let m1 = write_step(m, chunks[0]).0;
        lemma_write_appends(m, chunks[0]);
        lemma_run_writes(m1, chunks.drop_first());
        assert(m.decoded + emitted(m, chunks) =~= m1.decoded + emitted(m1, chunks.drop_first()));
    }
}

/// `n` calls of `next` hand out the `n` oldest frames, oldest first.
pub proof fn lemma_drain(m: StreamModel, n: nat)
    requires
        n <= m.decoded.len(),
    ensures
        drain(m, n) == m.decoded.take(n as int),
    decreases n,
{
    if n == 0 {
        assert(m.decoded.take(0) =~= Seq::<FrameModel>::empty());
    } else {
        let m1 = next_step(m).0;
        lemma_drain(m1, (n - 1) as nat);
        assert(seq![m.decoded[0]] + m1.decoded.take(n - 1) =~= m.decoded.take(n as int));
    }
}

/// Frames come out of `next` in the order the writes completed them: after any
/// sequence of writes, as many calls of `next` as there are frames hand out
/// the frames queued before, then those the writes produced, in that order.
/// On a fresh engine that is exactly the frames the writes produced.
pub proof fn lemma_frames_in_order(m: StreamModel, chunks: Seq<Seq<u8>>)
    ensures
        drain(run_writes(m, chunks), m.decoded.len() + emitted(m, chunks).len()) == m.decoded
            + emitted(m, chunks),
        m.decoded.len() == 0 ==> drain(run_writes(m, chunks), emitted(m, chunks).len())
            == emitted(m, chunks),
{
    let fin = run_writes(m, chunks);
    lemma_run_writes(m, chunks);
    lemma_drain(fin, fin.decoded.len());
    assert(fin.decoded.take(fin.decoded.len() as int) =~= fin.decoded);
    if m.decoded.len() == 0 {
        assert(m.decoded + emitted(m, chunks) =~= emitted(m, chunks));
    }
}

/// A frame that a write produces carries the header's tag and exactly the
/// `size` bytes that follow the header in the parsed input, unchanged.
pub proof fn lemma_payload_is_input_slice(m: StreamModel, data: Seq<u8>)
    requires
        write_emits(m, data).len() > 0,
    ensures
        ({
            let buf = parse_input(m, data);
            let end = 4 + be_u16(buf[2], buf[3]) as int;
            &&& buf.len() >= end
            &&& buf[0] == NETFRAME_DELIMITER
            &&& write_emits(m, data) == seq![FrameModel { tag: buf[1], payload: buf.subrange(4, end) }]
        }),
{
    let buf = parse_input(m, data);
    crate::frame::lemma_header_round_trip(buf[1], buf[2], buf[3], buf);
}

/// Frames already decoded are never altered by later writes.
pub proof fn lemma_decoded_frames_untouched(m: StreamModel, chunks: Seq<Seq<u8>>)
    ensures
        run_writes(m, chunks).decoded.take(m.decoded.len() as int) == m.decoded,
{
    lemma_run_writes(m, chunks);
    assert((m.decoded + emitted(m, chunks)).take(m.decoded.len() as int) =~= m.decoded);
}

/// A write whose parsed input holds one whole frame followed by more bytes
/// queues that frame alone and keeps the bytes after it pending, in
/// `InProgress`.
pub proof fn lemma_oversized_split(
    m: StreamModel,
    data: Seq<u8>,
    tag: u8,
    payload: Seq<u8>,
    tail: Seq<u8>,
)
    requires
        m.state != NetStreamState::Failure,
        m.pending.len() + data.len() <= usize::MAX,
        payload.len() <= 0xFFFF,
        tail.len() > 0,
        parse_input(m, data) == frame_bytes(tag, payload) + tail,
    ensures
        write_step(m, data) == (
            StreamModel {
                pending: tail,
                decoded: m.decoded.push(FrameModel { tag, payload }),
                state: NetStreamState::InProgress,
            },
            Ok::<(), NetStreamErr>(()),
        ),
{
    let buf = parse_input(m, data);
    let n = payload.len() as int;
    let hi = (n / 256) as u8;
    let lo = (n % 256) as u8;
    assert(n / 256 < 256 && n % 256 < 256) by (nonlinear_arith)
        requires
            0 <= n <= 0xFFFF,
    ;
    assert(be_u16(hi, lo) == n) by (nonlinear_arith)
        requires
            hi as nat == n / 256,
            lo as nat == n % 256,
    ;
    assert(buf[0] == NETFRAME_DELIMITER && buf[1] == tag && buf[2] == hi && buf[3] == lo);
    crate::frame::lemma_header_round_trip(tag, hi, lo, buf);
    assert(buf.subrange(4, 4 + n) =~= payload);
    assert(buf.subrange(4 + n, buf.len() as int) =~= tail);
    lemma_write_appends(m, data);
    assert(m.decoded + write_emits(m, data) =~= m.decoded.push(FrameModel { tag, payload }));
}

/// Writes and reads keep the engine well formed: in `Empty` nothing is pending.
pub proof fn lemma_steps_keep_wf(m: StreamModel, data: Seq<u8>)
    requires
        wf(m),
    ensures
        wf(write_step(m, data).0),
        wf(next_step(m).0),
{
}

impl NetStream {
    /// An engine in `Empty` with nothing pending and nothing decoded.
    pub fn new() -> (r: Self)
        ensures
            r@.pending.len() == 0,
            r@.decoded.len() == 0,
            r.state == NetStreamState::Empty,
            wf(r@),
    {
        let r = Self {
            frames: VecDeque::with_capacity(NETSTREAM_EXTERNAL_CAPACITY),
            buffer: Vec::with_capacity(NETSTREAM_INTERNAL_CAPACITY),
            state: NetStreamState::Empty,
        };
        assert(r@.decoded =~= Seq::empty());
        r
    }

    /// Takes the oldest decoded frame, or fails with `StreamMessageCountZero`
    /// when none is waiting. Never blocks.
    pub fn next(&mut self) -> (r: Result<NetFrame, NetStreamErr>)
        ensures
            final(self)@ == next_step(old(self)@).0,
            frame_result_view(r) == next_step(old(self)@).1,
            old(self).frames@.len() > 0 ==> r == Ok::<NetFrame, NetStreamErr>(old(self).frames@[0])
                && final(self).frames@ == old(self).frames@.drop_first(),
            old(self).frames@.len() == 0 ==> *final(self) == *old(self),
            final(self).buffer == old(self).buffer,
            final(self).state == old(self).state,
    {
        if self.frames.len() == 0 {
            return Err(NetStreamErr::new(NetStreamErrorType::StreamMessageCountZero));
        }
        let ghost before = self.frames@;
        let r = match self.frames.pop_front() {
            Some(f) => Ok(f),
            None => Err(NetStreamErr::new(NetStreamErrorType::StreamFailure)),
        };
        assert(self@.decoded =~= before.map_values(|f: NetFrame| f@).drop_first());
        r
    }

    /// Appends `f` to the queue of decoded frames.
    fn push_frame(&mut self, f: NetFrame)
        ensures
            final(self).frames@ == old(self).frames@.push(f),
            final(self)@.decoded == old(self)@.decoded.push(f@),
            final(self).buffer == old(self).buffer,
            final(self).state == old(self).state,
    {
        self.frames.push_back(f);
        assert(self@.decoded =~= old(self)@.decoded.push(f@));
    }

    /// Feeds `data` to the engine and extracts at most one frame.
    pub fn write(&mut self, data: Vec<u8>) -> (r: Result<(), NetStreamErr>)
        ensures
            (final(self)@, r) == write_step(old(self)@, data@),
            final(self)@.decoded == old(self)@.decoded + write_emits(old(self)@, data@),
            old(self).state == NetStreamState::Failure ==> final(self)@ == old(self)@ && r
                == Err::<(), NetStreamErr>(
                NetStreamErr { category: NetStreamErrorType::StreamFailure },
            ),
            wf(old(self)@) ==> wf(final(self)@),
    {
        proof {
            lemma_write_appends(self@, data@);
        }
        let ghost m = self@;
        let ghost d = data@;
        if self.state == NetStreamState::Failure {
            return Err(NetStreamErr::new(NetStreamErrorType::StreamFailure));
        }
        if data.len() > usize::MAX - self.buffer.len() {
            return Err(NetStreamErr::new(NetStreamErrorType::StreamBytesFull));
        }
        let mut data = data;
        if data.len() + self.buffer.len() < NETFRAME_HEADER_SIZE_BYTES {
            self.buffer.append(&mut data);
            self.state = NetStreamState::InProgress;
            assert(self@.decoded =~= m.decoded + write_emits(m, d));
            return Ok(());
        }
        if self.state == NetStreamState::Empty {
            match NetFrame::get_metadata(&data) {
                Ok(meta) => {
                    let end = meta.size as usize + NETFRAME_HEADER_SIZE_BYTES;
                    if data.len() == end {
                        let payload = data.split_off(NETFRAME_HEADER_SIZE_BYTES);
                        assert(payload@ =~= d.subrange(4, frame_end(meta)));
                        self.push_frame(NetFrame { tag: meta.tag, data: payload });
                        assert(self@.decoded =~= m.decoded + write_emits(m, d));
                        Ok(())
                    } else if data.len() < end {
                        self.buffer.append(&mut data);
                        self.state = NetStreamState::InProgress;
                        assert(self@.decoded =~= m.decoded + write_emits(m, d));
                        Ok(())
                    } else {
                        let tail = data.split_off(end);
                        let payload = data.split_off(NETFRAME_HEADER_SIZE_BYTES);
                        assert(payload@ =~= d.subrange(4, frame_end(meta)));
                        assert(tail@ =~= d.subrange(frame_end(meta), d.len() as int));
                        self.push_frame(NetFrame { tag: meta.tag, data: payload });
                        assert(self@.decoded =~= m.decoded + write_emits(m, d));
                        self.buffer = tail;
                        self.state = NetStreamState::InProgress;
                        Ok(())
                    }
                },
                Err(e) => {
                    assert(self@.decoded =~= m.decoded + write_emits(m, d));
                    let err = NetStreamErr::from(e);
                    assert(err == stream_error_of(e));
                    Err(err)
                },
            }
        } else {
            self.buffer.append(&mut data);
            match NetFrame::get_metadata(&self.buffer) {
                Ok(meta) => {
                    let end = meta.size as usize + NETFRAME_HEADER_SIZE_BYTES;
                    if self.buffer.len() == end {
                        let payload = self.buffer.split_off(NETFRAME_HEADER_SIZE_BYTES);
                        assert(payload@ =~= (m.pending + d).subrange(4, frame_end(meta)));
                        self.push_frame(NetFrame { tag: meta.tag, data: payload });
                        assert(self@.decoded =~= m.decoded + write_emits(m, d));
                        self.buffer.clear();
                        self.state = NetStreamState::Empty;
                        Ok(())
                    } else if self.buffer.len() < end {
                        self.state = NetStreamState::InProgress;
                        assert(self@.decoded =~= m.decoded + write_emits(m, d));
                        Ok(())
                    } else {
                        let ghost buf = self.buffer@;
                        let tail = self.buffer.split_off(end);
                        let payload = self.buffer.split_off(NETFRAME_HEADER_SIZE_BYTES);
                        assert(payload@ =~= buf.subrange(4, frame_end(meta)));
                        assert(tail@ =~= buf.subrange(frame_end(meta), buf.len() as int));
                        self.push_frame(NetFrame { tag: meta.tag, data: payload });
                        assert(self@.decoded =~= m.decoded + write_emits(m, d));
                        self.buffer = tail;
                        self.state = NetStreamState::InProgress;
                        Ok(())
                    }
                },
                Err(e) => {
                    assert(self@.decoded =~= m.decoded + write_emits(m, d));
                    let err = NetStreamErr::from(e);
                    assert(err == stream_error_of(e));
                    Err(err)
                },
            }
        }
    }
}

impl FramingStream for NetStream {
    fn next(&mut self) -> Result<NetFrame, NetStreamErr> {
        NetStream::next(self)
    }

    fn write(&mut self, data: Vec<u8>) -> Result<(), NetStreamErr> {
        NetStream::write(self, data)
    }
}

} // verus!
