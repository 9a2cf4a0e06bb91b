use warp_extension::host::codec::{
    CodecError, Feed, FrameReader, MAX_MESSAGE_BYTES, check_frame_size, check_protocol, frame_message, payload_length,
};
use warp_extension::protocol::wire::ErrorCode;

/// Reads one frame from `stream` starting at `*pos`, the way the transport
/// does: buffers of `chunk` bytes until the frame ends or the stream does.
fn read_frame(stream: &[u8], pos: &mut usize, chunk: usize) -> Result<Vec<u8>, CodecError> {
    let mut reader = FrameReader::new();
    loop {
        if *pos >= stream.len() {
            reader.at_end()?;
            return Ok(reader.line().clone());
        }
        let end = (*pos + chunk).min(stream.len());
        let (taken, outcome) = reader.feed(&stream[*pos..end]);
        *pos += taken;
        match outcome {
            Feed::More => {}
            Feed::Complete => return Ok(reader.line().clone()),
            Feed::TooLarge { size } => {
                return Err(CodecError::FrameTooLarge { size, limit: MAX_MESSAGE_BYTES });
            }
        }
    }
}

#[test]
fn several_frames_are_read_in_order() {
    let first = r#"{"protocol":1,"request_id":"1","method":"file.open","params":{}}"#;
    let second = r#"{"protocol":1,"request_id":"2","method":"notification.show","params":{}}"#;
    let stream = format!("{first}\n{second}\n").into_bytes();
    let mut pos = 0;
    assert_eq!(read_frame(&stream, &mut pos, 64).unwrap(), format!("{first}\n").into_bytes());
    assert_eq!(read_frame(&stream, &mut pos, 64).unwrap(), format!("{second}\n").into_bytes());
    assert!(matches!(read_frame(&stream, &mut pos, 64), Err(CodecError::Eof)));
}

#[test]
fn frames_are_found_across_buffer_boundaries() {
    let stream = b"{\"a\":1}\n{\"b\":2}\n";
    let mut pos = 0;
    assert_eq!(read_frame(stream, &mut pos, 3).unwrap(), b"{\"a\":1}\n".to_vec());
    assert_eq!(read_frame(stream, &mut pos, 3).unwrap(), b"{\"b\":2}\n".to_vec());
    assert!(matches!(read_frame(stream, &mut pos, 3), Err(CodecError::Eof)));
}

#[test]
fn an_oversized_frame_is_rejected_and_the_stream_resynchronises() {
    let next = r#"{"protocol":1,"request_id":"2","method":"file.open","params":{}}"#;
    let mut stream = vec![b'x'; MAX_MESSAGE_BYTES + 1];
    stream.push(b'\n');
    stream.extend_from_slice(format!("{next}\n").as_bytes());
    let mut pos = 0;
    let error = read_frame(&stream, &mut pos, 65536).expect_err("the oversized frame is rejected");
    assert!(matches!(error, CodecError::FrameTooLarge { size, .. } if size == MAX_MESSAGE_BYTES + 2));
    assert_eq!(error.to_extension_error().code, ErrorCode::InvalidRequest);
    assert_eq!(read_frame(&stream, &mut pos, 65536).unwrap(), format!("{next}\n").into_bytes());
}

#[test]
fn an_unterminated_oversized_frame_is_still_rejected() {
    let stream = vec![b'x'; MAX_MESSAGE_BYTES + 1];
    let mut pos = 0;
    assert!(matches!(read_frame(&stream, &mut pos, 1 << 20), Err(CodecError::FrameTooLarge { .. })));
}

#[test]
fn a_final_frame_without_a_newline_is_taken_as_it_stands() {
    let mut pos = 0;
    assert_eq!(read_frame(b"{\"x\":1}", &mut pos, 4).unwrap(), b"{\"x\":1}".to_vec());
}

#[test]
fn trailing_line_endings_are_not_part_of_the_payload() {
    assert_eq!(payload_length(b"{}\r\n"), 2);
    assert_eq!(payload_length(b"\n\n"), 0);
    assert_eq!(payload_length(b"abc"), 3);
}

#[test]
fn a_wrong_protocol_version_is_reported_as_a_mismatch() {
    assert!(check_protocol(1).is_ok());
    let error = check_protocol(99).expect_err("a wrong version is a mismatch");
    assert!(matches!(error, CodecError::ProtocolMismatch { found: 99, expected: 1 }));
    assert_eq!(error.to_extension_error().code, ErrorCode::ProtocolMismatch);
    assert_eq!(error.message(), "frame declares protocol version 99, expected 1");
}

#[test]
fn frame_sizes_are_checked_against_the_limit() {
    assert!(check_frame_size(MAX_MESSAGE_BYTES).is_ok());
    assert!(check_frame_size(MAX_MESSAGE_BYTES + 1).is_err());
}

#[test]
fn codec_failures_map_to_the_documented_codes() {
    assert_eq!(CodecError::Eof.to_extension_error().code, ErrorCode::PluginFailed);
    assert_eq!(CodecError::Malformed("x".to_owned()).to_extension_error().code, ErrorCode::InvalidRequest);
    assert_eq!(CodecError::Io("broken pipe".to_owned()).to_extension_error().message, "broken pipe");
    assert_eq!(
        CodecError::FrameTooLarge { size: 5, limit: 4 }.message(),
        "frame of 5 bytes exceeds the 4 byte limit"
    );
    assert_eq!(CodecError::Eof.to_extension_error().message, "the extension stream ended");
}

#[test]
fn only_the_end_of_the_stream_or_a_read_failure_stops_reading() {
    assert!(CodecError::Eof.ends_stream());
    assert!(CodecError::Io("broken pipe".to_owned()).ends_stream());
    assert!(!CodecError::Malformed("x".to_owned()).ends_stream());
    assert!(!CodecError::FrameTooLarge { size: 5, limit: 4 }.ends_stream());
    assert!(!CodecError::ProtocolMismatch { found: 99, expected: 1 }.ends_stream());
}

#[test]
fn a_written_frame_reads_back_whatever_the_buffers() {
    let message = br#"{"protocol":1,"request_id":"1","method":"file.open","params":{}}"#;
    let frame = frame_message(message).expect("the frame is within the limit");
    assert_eq!(frame, [&message[..], b"\n"].concat());
    let mut stream = frame.clone();
    stream.extend_from_slice(b"rest");
    for chunk in [1, 2, 7, 64, 1024] {
        let mut pos = 0;
        let read = read_frame(&stream, &mut pos, chunk).expect("the frame reads back");
        assert_eq!(read, frame);
        assert_eq!(pos, frame.len(), "nothing after the frame is taken");
        assert_eq!(&read[..payload_length(&read)], &message[..]);
    }
}

#[test]
fn an_oversized_message_is_not_framed() {
    let message = vec![b'x'; MAX_MESSAGE_BYTES + 1];
    let error = frame_message(&message).expect_err("the frame is too large");
    assert!(matches!(error, CodecError::FrameTooLarge { size, limit } if size == MAX_MESSAGE_BYTES + 1 && limit == MAX_MESSAGE_BYTES));
}
