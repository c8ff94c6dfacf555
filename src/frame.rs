//! Frames, their tags, and the header parser.
use vstd::prelude::*;

verus! {

/// The first byte of every frame header.
pub const NETFRAME_DELIMITER: u8 = 0x00;

/// Header length: delimiter, tag and two length bytes.
pub const NETFRAME_HEADER_SIZE_BYTES: usize = 4;

/// Why a buffer does not start with a usable frame header.
#[derive(Debug, Clone, Copy, PartialEq, Eq, Structural)]
pub enum NetFrameError {
    /// The first byte is not the delimiter.
    DelimiterMismatch,
    /// Fewer bytes than a header needs.
    TooLittleData,
    /// Any other header failure.
    Unknown,
}

/// The kinds of message a tag byte names. The engine itself treats the tag as
/// an opaque byte.
#[derive(Debug, Clone, Copy, PartialEq, Eq, Structural)]
pub enum NetFrameTag {
    /// A plain message with no special meaning.
    GenericMessage,
    /// A self-contained message.
    SingleMessage,
    /// One part of a message split over several frames.
    MultiMessage,
    /// A message to the connection handler.
    Control,
    /// Connection established.
    Hello,
    /// Connection closed.
    Goodbye,
    /// Ping request.
    Ping,
    /// Ping response.
    Pong,
    /// Reset request or notification.
    Reset,
    /// Any byte that names none of the above.
    Undefined,
}

/// The tag a byte names.
pub open spec fn tag_of_byte(b: u8) -> NetFrameTag {
    if b == 0x00 {
        NetFrameTag::GenericMessage
    } else if b == 0x01 {
        NetFrameTag::SingleMessage
    } else if b == 0x02 {
        NetFrameTag::MultiMessage
    } else if b == 0x03 {
        NetFrameTag::Control
    } else if b == 0x04 {
        NetFrameTag::Hello
    } else if b == 0x05 {
        NetFrameTag::Goodbye
    } else if b == 0x06 {
        NetFrameTag::Ping
    } else if b == 0x07 {
        NetFrameTag::Pong
    } else if b == 0x08 {
        NetFrameTag::Reset
    } else {
        NetFrameTag::Undefined
    }
}

/// The byte that stands for a tag; `Undefined` is written as 0xFF.
pub open spec fn byte_of_tag(t: NetFrameTag) -> u8 {
    match t {
        NetFrameTag::GenericMessage => 0x00,
        NetFrameTag::SingleMessage => 0x01,
        NetFrameTag::MultiMessage => 0x02,
        NetFrameTag::Control => 0x03,
        NetFrameTag::Hello => 0x04,
        NetFrameTag::Goodbye => 0x05,
        NetFrameTag::Ping => 0x06,
        NetFrameTag::Pong => 0x07,
        NetFrameTag::Reset => 0x08,
        NetFrameTag::Undefined => 0xFF,
    }
}

impl From<u8> for NetFrameTag {
    fn from(byte: u8) -> (r: Self) {
        match byte {
            0x00 => NetFrameTag::GenericMessage,
            0x01 => NetFrameTag::SingleMessage,
            0x02 => NetFrameTag::MultiMessage,
            0x03 => NetFrameTag::Control,
            0x04 => NetFrameTag::Hello,
            0x05 => NetFrameTag::Goodbye,
            0x06 => NetFrameTag::Ping,
            0x07 => NetFrameTag::Pong,
            0x08 => NetFrameTag::Reset,
            _ => NetFrameTag::Undefined,
        }
    }
}

impl vstd::std_specs::convert::FromSpecImpl<u8> for NetFrameTag {
    open spec fn obeys_from_spec() -> bool {
        true
    }

    open spec fn from_spec(v: u8) -> NetFrameTag {
        tag_of_byte(v)
    }
}

impl From<NetFrameTag> for u8 {
    fn from(what: NetFrameTag) -> (r: Self) {
        match what {
            NetFrameTag::GenericMessage => 0x00,
            NetFrameTag::SingleMessage => 0x01,
            NetFrameTag::MultiMessage => 0x02,
            NetFrameTag::Control => 0x03,
            NetFrameTag::Hello => 0x04,
            NetFrameTag::Goodbye => 0x05,
            NetFrameTag::Ping => 0x06,
            NetFrameTag::Pong => 0x07,
            NetFrameTag::Reset => 0x08,
            NetFrameTag::Undefined => 0xFF,
        }
    }
}

impl vstd::std_specs::convert::FromSpecImpl<NetFrameTag> for u8 {
    open spec fn obeys_from_spec() -> bool {
        true
    }

    open spec fn from_spec(v: NetFrameTag) -> u8 {
        byte_of_tag(v)
    }
}

/// Every defined tag survives the trip to its byte and back, and every byte
/// up to 0x08 survives the trip to its tag and back.
pub proof fn lemma_tag_round_trip(t: NetFrameTag, b: u8)
    ensures
        t != NetFrameTag::Undefined ==> tag_of_byte(byte_of_tag(t)) == t,
        b <= 0x08 ==> byte_of_tag(tag_of_byte(b)) == b,
        b > 0x08 ==> tag_of_byte(b) == NetFrameTag::Undefined,
{
}

/// What a header says about the frame that follows it.
#[derive(Debug, Default, Clone, Copy, PartialEq, Eq, Structural)]
pub struct NetFrameMetadata {
    pub tag: u8,
    pub size: u16,
}

/// The 16-bit big-endian number made of `hi` and `lo`.
pub open spec fn be_u16(hi: u8, lo: u8) -> nat {
    hi as nat * 256 + lo as nat
}

/// The outcome of parsing the header at the front of `buf`.
pub open spec fn parse_header(buf: Seq<u8>) -> Result<NetFrameMetadata, NetFrameError> {
    if buf.len() < 4 {
        Err(NetFrameError::TooLittleData)
    } else if buf[0] != NETFRAME_DELIMITER {
        Err(NetFrameError::DelimiterMismatch)
    } else {
        Ok(NetFrameMetadata { tag: buf[1], size: be_u16(buf[2], buf[3]) as u16 })
    }
}

/// Header followed by payload: the bytes one frame occupies on the wire.
#[derive(Debug, Default, Clone)]
pub struct NetFrame {
    pub tag: u8,
    pub data: Vec<u8>,
}

/// A frame as a mathematical value.
pub struct FrameModel {
    pub tag: u8,
    pub payload: Seq<u8>,
}

impl View for NetFrame {
    type V = FrameModel;

    open spec fn view(&self) -> FrameModel {
        FrameModel { tag: self.tag, payload: self.data@ }
    }
}

proof fn lemma_be_u16_bits(hi: u8, lo: u8)
    ensures
        ((hi as u16) << 8u16) | (lo as u16) == (hi as u16) * 256 + (lo as u16),
        (hi as u16) * 256 + (lo as u16) == be_u16(hi, lo),
{
    assert(((hi as u16) << 8u16) | (lo as u16) == (hi as u16) * 256 + (lo as u16)) by (bit_vector);
    assert((hi as u16) * 256 + (lo as u16) == hi as nat * 256 + lo as nat) by (nonlinear_arith);
}

/// A four-byte header `[0x00, tag, hi, lo]` parses to `tag` and the
/// big-endian size `hi * 256 + lo`; a buffer of four bytes or more whose first
/// byte is not the delimiter fails with `DelimiterMismatch`; a buffer shorter
/// than four bytes fails with `TooLittleData`. Bytes past the header do not
/// change the outcome.
pub proof fn lemma_header_round_trip(tag: u8, hi: u8, lo: u8, buf: Seq<u8>)
    ensures
        parse_header(seq![NETFRAME_DELIMITER, tag, hi, lo]) == Ok::<NetFrameMetadata, NetFrameError>(
            NetFrameMetadata { tag, size: (hi as nat * 256 + lo as nat) as u16 },
        ),
        (hi as nat * 256 + lo as nat) as u16 as nat == hi as nat * 256 + lo as nat,
        buf.len() >= 4 && buf[0] != NETFRAME_DELIMITER ==> parse_header(buf) == Err::<
            NetFrameMetadata,
            NetFrameError,
        >(NetFrameError::DelimiterMismatch),
        buf.len() < 4 ==> parse_header(buf) == Err::<NetFrameMetadata, NetFrameError>(
            NetFrameError::TooLittleData,
        ),
        buf.len() >= 4 ==> parse_header(buf) == parse_header(buf.subrange(0, 4)),
{
    let h = seq![NETFRAME_DELIMITER, tag, hi, lo];
    assert(h.len() == 4);
    assert(h[1] == tag && h[2] == hi && h[3] == lo);
    if buf.len() >= 4 {
        let p = buf.subrange(0, 4);
        assert(p[0] == buf[0] && p[1] == buf[1] && p[2] == buf[2] && p[3] == buf[3]);
    }
}

impl PartialEq for NetFrame {
    fn eq(&self, o: &NetFrame) -> (r: bool) {
        if self.tag != o.tag || self.data.len() != o.data.len() {
            return false;
        }
        let mut i: usize = 0;
        while i < self.data.len()
            invariant
                self.data@.len() == o.data@.len(),
                i <= self.data@.len(),
                self.data@.subrange(0, i as int) == o.data@.subrange(0, i as int),
            decreases self.data@.len() - i,
        {
            if self.data[i] != o.data[i] {
                return false;
            }
            assert(self.data@.subrange(0, i + 1) =~= self.data@.subrange(0, i as int).push(
                self.data@[i as int],
            ));
            assert(o.data@.subrange(0, i + 1) =~= o.data@.subrange(0, i as int).push(
                o.data@[i as int],
            ));
            i = i + 1;
        }
        assert(self.data@ =~= self.data@.subrange(0, i as int));
        assert(o.data@ =~= o.data@.subrange(0, i as int));
        true
    }
}

impl vstd::std_specs::cmp::PartialEqSpecImpl for NetFrame {
    open spec fn obeys_eq_spec() -> bool {
        true
    }

    open spec fn eq_spec(&self, o: &NetFrame) -> bool {
        self@ == o@
    }
}

impl NetFrame {
    pub fn new(tag: u8, data: Vec<u8>) -> (r: Self)
        ensures
            r.tag == tag,
            r.data@ == data@,
    {
        Self { tag, data }
    }

    /// Reads the header at the front of `buffer` without consuming anything.
    pub fn get_metadata(buffer: &Vec<u8>) -> (r: Result<NetFrameMetadata, NetFrameError>)
        ensures
            r == parse_header(buffer@),
    {
        if buffer.len() < NETFRAME_HEADER_SIZE_BYTES {
            return Err(NetFrameError::TooLittleData);
        }
        if buffer[0] != NETFRAME_DELIMITER {
            return Err(NetFrameError::DelimiterMismatch);
        }
        proof {
            lemma_be_u16_bits(buffer@[2], buffer@[3]);
        }
        Ok(NetFrameMetadata { tag: buffer[1], size: ((buffer[2] as u16) << 8u16) | (buffer[3] as u16) })
    }
}

} // verus!
