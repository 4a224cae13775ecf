//! Message framing: a type byte, a big-endian length that counts itself, and
//! the payload; in copy mode inside a `CopyData` envelope.

use crate::error::Error;
use crate::error::ErrorView;
use crate::error::outcome;
use crate::error::outcome_view;
use crate::wire::be_bytes_u32;
use crate::wire::be_u32;
use crate::wire::i32_from_bits;
use crate::wire::lemma_be_u32_round_trip;
use crate::wire::push_be_u32;
use crate::wire::signed32;
use crate::wire::Taken;
use crate::wire::u32_from_be;
use vstd::prelude::*;

verus! {

/// One type byte and four length bytes stand before every payload.
pub const HEADER_LEN: usize = 5;

/// The type byte of a `CopyData` envelope, `d`.
pub const COPY_DATA: u8 = 0x64;

/// The type byte of an authentication request, `R`.
pub const AUTHENTICATION_REQUEST: u8 = 0x52;

/// The type byte of an error response, `E`.
pub const ERROR_RESPONSE: u8 = 0x45;

/// The type byte of a notice response, `N`.
pub const NOTICE_RESPONSE: u8 = 0x4e;

/// The type byte of a parameter status, `S`.
pub const PARAMETER_STATUS: u8 = 0x53;

/// The type byte of backend key data, `K`.
pub const BACKEND_KEY_DATA: u8 = 0x4b;

/// The type byte of ready-for-query, `Z`.
pub const READY_FOR_QUERY: u8 = 0x5a;

/// The type byte of a password message, `p`.
pub const PASSWORD_MESSAGE: u8 = 0x70;

/// The type byte of a simple query, `Q`.
pub const QUERY: u8 = 0x51;

/// The type byte of a copy-both response, `W`.
pub const COPY_BOTH_RESPONSE: u8 = 0x57;

/// The type byte of a primary keepalive inside the copy stream, `k`.
pub const KEEPALIVE: u8 = 0x6b;

/// The type byte of WAL data inside the copy stream, `w`.
pub const WAL_DATA: u8 = 0x77;

/// The type byte of a standby status update inside the copy stream, `r`.
pub const STANDBY_STATUS_UPDATE: u8 = 0x72;

/// The greatest value of the signed 32-bit length field.
pub const MAX_FRAME_LENGTH: usize = 0x7fff_ffff;

/// One protocol message: its type byte and its payload.
#[derive(Debug, Clone, PartialEq, Eq)]
pub struct PgMessage {
    /// The message type.
    pub message_type: u8,
    /// The payload, without header.
    pub data: Vec<u8>,
}

/// The mathematical content of a [`PgMessage`].
pub struct PgMessageView {
    pub message_type: u8,
    pub data: Seq<u8>,
}

impl View for PgMessage {
    type V = PgMessageView;

    open spec fn view(&self) -> PgMessageView {
        PgMessageView { message_type: self.message_type, data: self.data@ }
    }
}

/// The bytes of one frame. The length field counts itself and what follows
/// it. In copy mode the message travels inside a `CopyData` envelope, its own
/// type byte first in the payload.
pub open spec fn spec_frame(message_type: u8, data: Seq<u8>, copy_data: bool) -> Seq<u8> {
    if copy_data {
        seq![COPY_DATA] + be_bytes_u32(data.len() as int + 5) + seq![message_type] + data
    } else {
        seq![message_type] + be_bytes_u32(data.len() as int + 4) + data
    }
}

/// What the length field counts besides the payload: its own four bytes,
/// and in copy mode the type byte inside the envelope.
pub open spec fn spec_length_overhead(copy_data: bool) -> nat {
    if copy_data {
        5
    } else {
        4
    }
}

/// The longest payload whose length field still fits.
pub open spec fn spec_max_payload_len(copy_data: bool) -> nat {
    (MAX_FRAME_LENGTH - spec_length_overhead(copy_data)) as nat
}

/// What [`write_message`] answers for a payload of the given length: the
/// payload is refused only where its length field would not fit.
pub open spec fn spec_write_message(len: nat, copy_data: bool) -> Result<(), ErrorView> {
    if len > spec_max_payload_len(copy_data) {
        Err(ErrorView::ReplicationProtocolViolation("message too long"@))
    } else {
        Ok(())
    }
}

/// The number of payload bytes that a header announces: its length field,
/// read as a signed number, less the four bytes of the field itself.
pub open spec fn spec_frame_length(header: Seq<u8>) -> Result<usize, ErrorView> {
    if header.len() < HEADER_LEN {
        Err(ErrorView::UnexpectedEndOfData("message header"@))
    } else {
        let length = signed32(be_u32(header.skip(1)));
        if length < 4 {
            Err(ErrorView::ReplicationProtocolViolation("invalid message length"@))
        } else {
            Ok((length - 4) as usize)
        }
    }
}

/// The message that a frame carries. In copy mode a `CopyData` frame with a
/// payload is opened: the first payload byte is the type, the rest the
/// payload. Every other frame is taken as it is.
pub open spec fn spec_open_frame(message_type: u8, data: Seq<u8>, copy_data: bool) -> PgMessageView {
    if copy_data && message_type == COPY_DATA && data.len() > 0 {
        PgMessageView { message_type: data[0], data: data.skip(1) }
    } else {
        PgMessageView { message_type, data }
    }
}

/// What [`read_message`] takes from the front of `input`.
pub open spec fn spec_read_message(input: Seq<u8>, copy_data: bool) -> Taken<PgMessageView> {
    match spec_frame_length(input) {
        Err(e) => Err(e),
        Ok(n) => if input.len() - HEADER_LEN < n {
            Err(ErrorView::UnexpectedEndOfData("message body"@))
        } else {
            Ok(
                (
                    spec_open_frame(
                        input[0],
                        input.subrange(HEADER_LEN as int, HEADER_LEN + n),
                        copy_data,
                    ),
                    input.skip(HEADER_LEN + n),
                ),
            )
        },
    }
}

/// Whatever is written as a frame is read back as the same type and payload,
/// in command mode and in copy mode alike, and reading stops exactly at the
/// end of the frame.
pub proof fn lemma_write_then_read(message_type: u8, data: Seq<u8>, copy_data: bool, rest: Seq<u8>)
    requires
        data.len() <= spec_max_payload_len(copy_data),
    ensures
        spec_read_message(spec_frame(message_type, data, copy_data) + rest, copy_data) == Ok::<
            (PgMessageView, Seq<u8>),
            ErrorView,
        >((PgMessageView { message_type, data }, rest)),
{
    let frame = spec_frame(message_type, data, copy_data);
    let input = frame + rest;
    let body_len: int = if copy_data {
        data.len() as int + 1
    } else {
        data.len() as int
    };
    lemma_be_u32_round_trip(body_len + 4);
    assert(input.skip(1).take(4) =~= be_bytes_u32(body_len + 4));
    assert(be_u32(input.skip(1)) == be_u32(input.skip(1).take(4)));
    let body = input.subrange(HEADER_LEN as int, HEADER_LEN + body_len);
    if copy_data {
        assert(input[0] == COPY_DATA);
        assert(body =~= seq![message_type] + data);
        assert(body.skip(1) =~= data);
    } else {
        assert(input[0] == message_type);
        assert(body =~= data);
    }
    assert(input.skip(HEADER_LEN + body_len) =~= rest);
}

/// The longest payload whose length field still fits.
pub fn max_payload_len(copy_data: bool) -> (r: usize)
    ensures
        r == spec_max_payload_len(copy_data),
{
    if copy_data {
        MAX_FRAME_LENGTH - 5
    } else {
        MAX_FRAME_LENGTH - 4
    }
}

/// Appends one frame to `buffer`, the bytes that go out on the wire. A
/// payload too long for the length field is refused and nothing is
/// appended.
pub fn write_message(buffer: &mut Vec<u8>, message_type: u8, data: &[u8], copy_data: bool) -> (r:
    Result<(), Error>)
    ensures
        outcome(r) == spec_write_message(data@.len(), copy_data),
        r is Ok ==> final(buffer)@ == old(buffer)@ + spec_frame(message_type, data@, copy_data),
        r is Err ==> final(buffer)@ == old(buffer)@,
{
    if data.len() > max_payload_len(copy_data) {
        return Err(Error::ReplicationProtocolViolation("message too long".to_owned()));
    }
    let mut length: u32 = (data.len() + 4) as u32;
    if copy_data {
        length = length + 1;
    }
    if copy_data {
        buffer.push(COPY_DATA);
    } else {
        buffer.push(message_type);
    }
    push_be_u32(buffer, length);
    if copy_data {
        buffer.push(message_type);
    }
    buffer.extend_from_slice(data);
    assert(final(buffer)@ =~= old(buffer)@ + spec_frame(message_type, data@, copy_data));
    Ok(())
}

/// The number of payload bytes that follow the given header.
pub fn frame_length(header: &[u8]) -> (r: Result<usize, Error>)
    ensures
        outcome(r) == spec_frame_length(header@),
{
    if header.len() < HEADER_LEN {
        return Err(Error::UnexpectedEndOfData("message header"));
    }
    let length = i32_from_bits(u32_from_be(&header[1..5]));
    assert(header@.subrange(1, 5) =~= header@.skip(1).take(4));
    assert(be_u32(header@.skip(1)) == be_u32(header@.skip(1).take(4)));
    if length < 4 {
        return Err(Error::ReplicationProtocolViolation("invalid message length".to_owned()));
    }
    Ok((length - 4) as usize)
}

/// Opens a frame that has been read whole: see [`spec_open_frame`].
pub fn open_frame(message_type: u8, data: Vec<u8>, copy_data: bool) -> (r: PgMessage)
    ensures
        r@ == spec_open_frame(message_type, data@, copy_data),
{
    if !copy_data || message_type != COPY_DATA || data.len() == 0 {
        return PgMessage { message_type, data };
    }
    let inner = data[0];
    let mut payload: Vec<u8> = Vec::new();
    payload.extend_from_slice(&data[1..data.len()]);
    assert(payload@ =~= data@.skip(1));
    PgMessage { message_type: inner, data: payload }
}

/// Takes one frame from the front of `input` and opens it.
pub fn read_message(input: &mut &[u8], copy_data: bool) -> (r: Result<PgMessage, Error>)
    ensures
        match spec_read_message(old(input)@, copy_data) {
            Ok((message, rest)) => outcome_view(r) == Ok::<PgMessageView, ErrorView>(message)
                && final(input)@ == rest,
            Err(e) => outcome_view(r) == Err::<PgMessageView, ErrorView>(e) && final(input)@
                == old(input)@,
        },
{
    let n = frame_length(*input)?;
    if input.len() - HEADER_LEN < n {
        return Err(Error::UnexpectedEndOfData("message body"));
    }
    let message_type = input[0];
    let mut data: Vec<u8> = Vec::new();
    data.extend_from_slice(&input[HEADER_LEN..HEADER_LEN + n]);
    assert(data@ =~= old(input)@.subrange(HEADER_LEN as int, HEADER_LEN + n));
    *input = &input[HEADER_LEN + n..input.len()];
    assert(input@ =~= old(input)@.skip(HEADER_LEN + n));
    Ok(open_frame(message_type, data, copy_data))
}

} // verus!
