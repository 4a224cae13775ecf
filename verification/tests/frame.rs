use lolrepl::error::Error;
use lolrepl::frame::frame_length;
use lolrepl::frame::max_payload_len;
use lolrepl::frame::open_frame;
use lolrepl::frame::read_message;
use lolrepl::frame::write_message;
use lolrepl::frame::PgMessage;

#[test]
fn command_frame_has_type_length_payload() {
    let mut out = Vec::new();
    write_message(&mut out, b'Q', b"abc", false).unwrap();
    assert_eq!(out, vec![b'Q', 0, 0, 0, 7, b'a', b'b', b'c']);
}

#[test]
fn copy_frame_wraps_the_type_in_an_envelope() {
    let mut out = Vec::new();
    write_message(&mut out, b'r', b"abc", true).unwrap();
    assert_eq!(out, vec![b'd', 0, 0, 0, 8, b'r', b'a', b'b', b'c']);
}

#[test]
fn frames_are_appended() {
    let mut out = vec![9u8];
    write_message(&mut out, b'p', b"", false).unwrap();
    write_message(&mut out, b'X', b"z", false).unwrap();
    assert_eq!(out, vec![9, b'p', 0, 0, 0, 4, b'X', 0, 0, 0, 5, b'z']);
}

#[test]
fn length_field_is_big_endian() {
    let payload = vec![7u8; 0x0102_03];
    let mut out = Vec::new();
    write_message(&mut out, b'w', &payload, false).unwrap();
    assert_eq!(&out[..5], &[b'w', 0x00, 0x01, 0x02, 0x07]);
    assert_eq!(out.len(), 5 + 0x0102_03);
}

#[test]
fn written_command_frame_reads_back() {
    let mut out = Vec::new();
    write_message(&mut out, b'Q', b"select", false).unwrap();
    let mut input: &[u8] = &out;
    let message = read_message(&mut input, false).unwrap();
    assert_eq!(message, PgMessage { message_type: b'Q', data: b"select".to_vec() });
    assert!(input.is_empty());
}

#[test]
fn written_copy_frame_reads_back() {
    let mut out = Vec::new();
    write_message(&mut out, b'k', &[1, 2, 3], true).unwrap();
    write_message(&mut out, b'w', &[], true).unwrap();
    let mut input: &[u8] = &out;
    let first = read_message(&mut input, true).unwrap();
    assert_eq!(first, PgMessage { message_type: b'k', data: vec![1, 2, 3] });
    let second = read_message(&mut input, true).unwrap();
    assert_eq!(second, PgMessage { message_type: b'w', data: vec![] });
    assert!(input.is_empty());
}

#[test]
fn a_command_frame_of_type_d_is_not_opened_in_command_mode() {
    let mut out = Vec::new();
    write_message(&mut out, b'd', b"xy", false).unwrap();
    let mut input: &[u8] = &out;
    let message = read_message(&mut input, false).unwrap();
    assert_eq!(message, PgMessage { message_type: b'd', data: b"xy".to_vec() });
}

#[test]
fn copy_mode_leaves_other_frames_alone() {
    // CopyDone and ErrorResponse arrive without an envelope.
    let bytes = vec![b'c', 0, 0, 0, 4, b'E', 0, 0, 0, 6, b'M', 0];
    let mut input: &[u8] = &bytes;
    let done = read_message(&mut input, true).unwrap();
    assert_eq!(done, PgMessage { message_type: b'c', data: vec![] });
    let error = read_message(&mut input, true).unwrap();
    assert_eq!(error, PgMessage { message_type: b'E', data: vec![b'M', 0] });
}

#[test]
fn an_empty_envelope_is_returned_as_it_is() {
    let bytes = vec![b'd', 0, 0, 0, 4];
    let mut input: &[u8] = &bytes;
    let message = read_message(&mut input, true).unwrap();
    assert_eq!(message, PgMessage { message_type: b'd', data: vec![] });
}

#[test]
fn open_frame_takes_the_first_payload_byte_as_type() {
    assert_eq!(
        open_frame(b'd', vec![b'w', 1, 2], true),
        PgMessage { message_type: b'w', data: vec![1, 2] }
    );
    assert_eq!(
        open_frame(b'd', vec![b'w', 1, 2], false),
        PgMessage { message_type: b'd', data: vec![b'w', 1, 2] }
    );
    assert_eq!(
        open_frame(b'd', vec![b'k'], true),
        PgMessage { message_type: b'k', data: vec![] }
    );
}

#[test]
fn frame_length_is_the_field_less_four() {
    assert_eq!(frame_length(&[b'Z', 0, 0, 0, 5]).unwrap(), 1);
    assert_eq!(frame_length(&[b'Z', 0, 0, 0, 4]).unwrap(), 0);
    assert_eq!(frame_length(&[b'Z', 0, 0, 1, 4, 9, 9]).unwrap(), 256);
    assert_eq!(frame_length(&[b'Z', 0x7f, 0xff, 0xff, 0xff]).unwrap(), 0x7fff_fffb);
}

#[test]
fn a_length_below_four_is_refused() {
    assert_eq!(
        frame_length(&[b'Z', 0, 0, 0, 3]),
        Err(Error::ReplicationProtocolViolation("invalid message length".to_string()))
    );
    assert_eq!(
        frame_length(&[b'Z', 0xff, 0xff, 0xff, 0xff]),
        Err(Error::ReplicationProtocolViolation("invalid message length".to_string()))
    );
    assert_eq!(
        frame_length(&[b'Z', 0x80, 0, 0, 0]),
        Err(Error::ReplicationProtocolViolation("invalid message length".to_string()))
    );
}

#[test]
fn a_short_header_is_an_unexpected_end() {
    assert_eq!(
        frame_length(&[b'Z', 0, 0, 0]),
        Err(Error::UnexpectedEndOfData("message header"))
    );
    let mut input: &[u8] = &[];
    assert_eq!(
        read_message(&mut input, false),
        Err(Error::UnexpectedEndOfData("message header"))
    );
}

#[test]
fn a_short_body_is_an_unexpected_end_and_consumes_nothing() {
    let bytes = vec![b'Q', 0, 0, 0, 8, 1, 2, 3];
    let mut input: &[u8] = &bytes;
    assert_eq!(
        read_message(&mut input, false),
        Err(Error::UnexpectedEndOfData("message body"))
    );
    assert_eq!(input.len(), 8);
}

#[test]
fn reading_stops_at_the_end_of_the_frame() {
    let bytes = vec![b'Q', 0, 0, 0, 5, 1, 0xaa, 0xbb];
    let mut input: &[u8] = &bytes;
    let message = read_message(&mut input, false).unwrap();
    assert_eq!(message.data, vec![1]);
    assert_eq!(input, &[0xaa, 0xbb]);
}

#[test]
fn the_longest_payload_depends_on_the_mode() {
    // The length field counts itself, and in copy mode the inner type byte.
    assert_eq!(max_payload_len(false), 0x7fff_fffb);
    assert_eq!(max_payload_len(true), 0x7fff_fffa);
    assert_eq!(max_payload_len(false) + 4, i32::MAX as usize);
    assert_eq!(max_payload_len(true) + 5, i32::MAX as usize);
}
