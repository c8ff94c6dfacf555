use netstream::error::{NetStreamErr, NetStreamErrorType};
use netstream::frame::NetFrame;
use netstream::stream::{FramingStream, NetStream, NetStreamState};

fn count_zero() -> Result<NetFrame, NetStreamErr> {
    Err(NetStreamErr { category: NetStreamErrorType::StreamMessageCountZero })
}

#[test]
fn netstream_ok_write_frame_and_next() {
    let mut stream = NetStream::new();
    // tag 0x00, size 1 in network byte order
    let buffer: Vec<u8> = vec![0x00, 0x00, 0x00, 0x01, 0xAB];
    let wanted_result: Result<(), NetStreamErr> = Ok(());
    assert_eq!(stream.write(buffer), wanted_result);
    let wanted_frame: NetFrame = NetFrame { tag: 0x00, data: vec![0xAB] };
    assert_eq!(stream.clone().next(), Ok(wanted_frame));
    assert_eq!(stream.clone().state, NetStreamState::Empty);
}

#[test]
fn netstream_ok_write_in_progress() {
    let mut stream = NetStream::new();
    let buffer0: Vec<u8> = vec![0x00, 0x00];
    let buffer1: Vec<u8> = vec![0x00, 0x01];
    let buffer2: Vec<u8> = vec![0xAB];
    let wanted_frame: NetFrame = NetFrame { tag: 0x00, data: vec![0xAB] };
    // too little data
    assert_eq!(stream.write(buffer0), Ok(()));
    assert_eq!(
        stream.next(),
        Err(NetStreamErr { category: NetStreamErrorType::StreamMessageCountZero })
    );
    // too little data
    assert_eq!(stream.write(buffer1), Ok(()));
    assert_eq!(
        stream.next(),
        Err(NetStreamErr { category: NetStreamErrorType::StreamMessageCountZero })
    );
    // enough for one frame
    assert_eq!(stream.write(buffer2), Ok(()));
    assert_eq!(stream.clone().next(), Ok(wanted_frame));
    assert_eq!(stream.clone().state, NetStreamState::Empty);
}

#[test]
fn exact_fit_yields_one_frame_and_empty_state() {
    let mut stream = NetStream::new();
    assert_eq!(stream.write(vec![0x00, 0x00, 0x00, 0x01, 0xAB]), Ok(()));
    assert_eq!(stream.state, NetStreamState::Empty);
    assert!(stream.buffer.is_empty());
    assert_eq!(stream.next(), Ok(NetFrame::new(0x00, vec![0xAB])));
    assert_eq!(stream.next(), count_zero());
}

#[test]
fn fragmented_header_is_reassembled() {
    let mut stream = NetStream::new();
    assert_eq!(stream.write(vec![0x00, 0x00]), Ok(()));
    assert_eq!(stream.state, NetStreamState::InProgress);
    assert_eq!(stream.buffer, vec![0x00, 0x00]);
    assert_eq!(stream.write(vec![0x00, 0x01]), Ok(()));
    assert_eq!(stream.state, NetStreamState::InProgress);
    assert_eq!(stream.buffer, vec![0x00, 0x00, 0x00, 0x01]);
    assert_eq!(stream.next(), count_zero());
    assert_eq!(stream.write(vec![0xAB]), Ok(()));
    assert!(stream.buffer.is_empty());
    assert_eq!(stream.next(), Ok(NetFrame::new(0x00, vec![0xAB])));
    assert_eq!(stream.next(), count_zero());
}

#[test]
fn oversized_write_keeps_trailing_bytes() {
    let mut stream = NetStream::new();
    assert_eq!(stream.write(vec![0x00, 0x07, 0x00, 0x02, 0x01, 0x02, 0x09, 0x09]), Ok(()));
    assert_eq!(stream.state, NetStreamState::InProgress);
    assert_eq!(stream.buffer, vec![0x09, 0x09]);
    assert_eq!(stream.next(), Ok(NetFrame::new(0x07, vec![0x01, 0x02])));
    assert_eq!(stream.next(), count_zero());
}

#[test]
fn oversized_write_in_progress_keeps_trailing_bytes() {
    let mut stream = NetStream::new();
    assert_eq!(stream.write(vec![0x00, 0x03]), Ok(()));
    assert_eq!(stream.write(vec![0x00, 0x01, 0x55, 0x00, 0x00]), Ok(()));
    assert_eq!(stream.state, NetStreamState::InProgress);
    assert_eq!(stream.buffer, vec![0x00, 0x00]);
    assert_eq!(stream.next(), Ok(NetFrame::new(0x03, vec![0x55])));
}

#[test]
fn one_frame_per_write_even_when_two_are_present() {
    let mut stream = NetStream::new();
    let two = vec![0x00, 0x01, 0x00, 0x01, 0xAA, 0x00, 0x02, 0x00, 0x01, 0xBB];
    assert_eq!(stream.write(two), Ok(()));
    assert_eq!(stream.frames.len(), 1);
    assert_eq!(stream.buffer, vec![0x00, 0x02, 0x00, 0x01, 0xBB]);
    assert_eq!(stream.state, NetStreamState::InProgress);
    // the second frame completes on the next write, even an empty one
    assert_eq!(stream.write(vec![]), Ok(()));
    assert_eq!(stream.state, NetStreamState::Empty);
    assert_eq!(stream.next(), Ok(NetFrame::new(0x01, vec![0xAA])));
    assert_eq!(stream.next(), Ok(NetFrame::new(0x02, vec![0xBB])));
    assert_eq!(stream.next(), count_zero());
}

#[test]
fn next_on_fresh_engine_is_count_zero() {
    let mut stream = NetStream::new();
    assert_eq!(stream.next(), count_zero());
    assert_eq!(stream.state, NetStreamState::Empty);
    assert!(stream.buffer.is_empty());
}

#[test]
fn frames_come_out_in_completion_order() {
    let mut stream = NetStream::new();
    assert_eq!(stream.write(vec![0x00, 0x01, 0x00, 0x01, 0x11]), Ok(()));
    assert_eq!(stream.write(vec![0x00, 0x02, 0x00]), Ok(()));
    assert_eq!(stream.write(vec![0x02, 0x22, 0x23]), Ok(()));
    assert_eq!(stream.write(vec![0x00, 0x03, 0x00, 0x00]), Ok(()));
    assert_eq!(stream.next(), Ok(NetFrame::new(0x01, vec![0x11])));
    assert_eq!(stream.next(), Ok(NetFrame::new(0x02, vec![0x22, 0x23])));
    assert_eq!(stream.next(), Ok(NetFrame::new(0x03, vec![])));
    assert_eq!(stream.next(), count_zero());
}

#[test]
fn payload_is_input_slice_and_survives_later_writes() {
    let mut stream = NetStream::new();
    let input = vec![0x00, 0x09, 0x00, 0x03, 0xDE, 0xAD, 0xBE];
    assert_eq!(stream.write(input.clone()), Ok(()));
    assert_eq!(stream.write(vec![0x00, 0x09, 0x00, 0x01, 0x00]), Ok(()));
    assert_eq!(stream.write(vec![0x00, 0x00]), Ok(()));
    let first = stream.next().unwrap();
    assert_eq!(first.tag, 0x09);
    assert_eq!(first.data, input[4..7].to_vec());
    assert_eq!(stream.next(), Ok(NetFrame::new(0x09, vec![0x00])));
}

#[test]
fn largest_frame_is_decoded() {
    let mut stream = NetStream::new();
    let mut data: Vec<u8> = vec![0x00, 0x05, 0xFF, 0xFF];
    let payload: Vec<u8> = (0..65535u32).map(|i| (i % 251) as u8).collect();
    data.extend_from_slice(&payload);
    assert_eq!(stream.write(data), Ok(()));
    assert_eq!(stream.state, NetStreamState::Empty);
    assert_eq!(stream.next(), Ok(NetFrame::new(0x05, payload)));
}

#[test]
fn bad_delimiter_from_empty_leaves_engine_unchanged() {
    let mut stream = NetStream::new();
    assert_eq!(
        stream.write(vec![0x01, 0x00, 0x00, 0x00]),
        Err(NetStreamErr::new(NetStreamErrorType::FramingDelimiterMismatch))
    );
    assert_eq!(stream.state, NetStreamState::Empty);
    assert!(stream.buffer.is_empty());
    assert_eq!(stream.next(), count_zero());
}

#[test]
fn bad_delimiter_in_progress_keeps_bytes() {
    let mut stream = NetStream::new();
    assert_eq!(stream.write(vec![0x01, 0x02]), Ok(()));
    assert_eq!(
        stream.write(vec![0x03, 0x04]),
        Err(NetStreamErr::new(NetStreamErrorType::FramingDelimiterMismatch))
    );
    assert_eq!(stream.state, NetStreamState::InProgress);
    assert_eq!(stream.buffer, vec![0x01, 0x02, 0x03, 0x04]);
}

#[test]
fn failure_state_rejects_every_write() {
    let mut stream = NetStream::new();
    assert_eq!(stream.write(vec![0x00, 0x01, 0x00, 0x01, 0x42]), Ok(()));
    stream.state = NetStreamState::Failure;
    let failure = Err(NetStreamErr::new(NetStreamErrorType::StreamFailure));
    assert_eq!(stream.write(vec![0x00]), failure);
    assert_eq!(stream.write(vec![0x00, 0x01, 0x00, 0x00]), failure);
    assert_eq!(stream.state, NetStreamState::Failure);
    assert!(stream.buffer.is_empty());
    assert_eq!(stream.next(), Ok(NetFrame::new(0x01, vec![0x42])));
}

#[test]
fn zero_size_frame_split_over_writes() {
    let mut stream = NetStream::new();
    assert_eq!(stream.write(vec![0x00]), Ok(()));
    assert_eq!(stream.write(vec![0x06, 0x00]), Ok(()));
    assert_eq!(stream.write(vec![0x00]), Ok(()));
    assert_eq!(stream.state, NetStreamState::Empty);
    assert_eq!(stream.next(), Ok(NetFrame::new(0x06, vec![])));
}

#[test]
fn trait_methods_reach_the_engine() {
    let mut stream = NetStream::new();
    assert_eq!(FramingStream::write(&mut stream, vec![0x00, 0x04, 0x00, 0x00]), Ok(()));
    assert_eq!(FramingStream::next(&mut stream), Ok(NetFrame::new(0x04, vec![])));
    assert_eq!(FramingStream::next(&mut stream), count_zero());
}

#[test]
fn default_engine_matches_new() {
    assert_eq!(NetStream::default(), NetStream::new());
}
