//! The error type of the crate, and its view for contracts.

use crate::hexcode::HexError;
use vstd::prelude::*;

verus! {

/// How a read on the transport failed, as far as the stream logic cares.
#[derive(Debug, Clone, Copy, PartialEq, Eq, Structural)]
pub enum TransportErrorKind {
    /// The read would have blocked.
    WouldBlock,
    /// The read deadline passed.
    TimedOut,
    /// Any other failure.
    Other,
}

/// A failure reported by the byte-stream transport.
#[derive(Debug, Clone, PartialEq, Eq)]
pub struct TransportError {
    /// The class of the failure.
    pub kind: TransportErrorKind,
    /// The transport's own description.
    pub message: String,
}

/// Why bytes are no UTF-8 text: what the standard library tells of it.
#[derive(Debug, Clone, Copy, PartialEq, Eq)]
pub struct Utf8Failure {
    /// The number of bytes from the front that are UTF-8.
    pub valid_up_to: usize,
    /// The length of the malformed sequence behind them, or `None` where the
    /// bytes end inside a character.
    pub error_len: Option<usize>,
}

/// Why a decimal integer could not be read.
#[derive(Debug, Clone, Copy, PartialEq, Eq, Structural)]
pub enum IntErrorKind {
    /// The text was empty.
    Empty,
    /// A character that is not a digit, or a sign with nothing behind it.
    InvalidDigit,
    /// The number is above the largest value of the type.
    PosOverflow,
    /// The number is below the smallest value of the type.
    NegOverflow,
}

/// Why a text is no floating-point number.
#[derive(Debug, Clone, Copy, PartialEq, Eq, Structural)]
pub enum FloatErrorKind {
    /// The text was empty.
    Empty,
    /// The text does not follow the grammar of a floating-point literal.
    Invalid,
}

/// Everything that can go wrong while connecting, authenticating or decoding
/// the replication stream.
#[derive(Debug, PartialEq)]
pub enum Error {
    /// The transport failed.
    Io(TransportError),
    /// The input ended inside the named item.
    UnexpectedEndOfData(&'static str),
    /// A WAL-data payload without a single byte.
    EmptyWalData,
    /// A COPY payload without a single byte.
    EmptyCopyData,
    /// A string without its terminating NUL.
    UnterminatedString,
    /// An authentication request shorter than its code.
    InvalidAuthRequest,
    /// An MD5 authentication request without its salt.
    InvalidMd5AuthRequest,
    /// The server refused the credentials, or asks for a method that is not
    /// supported.
    Authentication(String),
    /// The server answered the replication command with an error.
    ReplicationCommandFailed(String),
    /// The stream was used before the server entered copy mode.
    ReplicationCopyModeNotStarted,
    /// A message that the protocol does not allow at this point.
    ReplicationProtocolViolation(String),
    /// The stream timed out waiting for data.
    ReplicationStreamTimedOut,
    /// The server reported an error while starting up.
    ServerStartupFailure(String),
    /// Malformed backend key data.
    BackendKeyDataInvalid,
    /// Malformed parameter status.
    ParameterStatusInvalid,
    /// Text that is not UTF-8.
    Utf8(Utf8Failure),
    /// A `bytea` value that is not hexadecimal.
    HexDecode(HexError),
    /// An integer column that is not a decimal number of its type.
    ParseInt(IntErrorKind),
    /// A floating-point column that is no floating-point literal.
    ParseFloat(FloatErrorKind),
    /// A date or time that `jiff` does not accept, with what `jiff` said of it.
    ParseDateTime(String),
    /// Any other value that cannot be decoded.
    ParseValue(String),
}

/// The mathematical content of an [`Error`]: strings by their characters.
pub enum ErrorView {
    Io(TransportErrorKind, Seq<char>),
    UnexpectedEndOfData(Seq<char>),
    EmptyWalData,
    EmptyCopyData,
    UnterminatedString,
    InvalidAuthRequest,
    InvalidMd5AuthRequest,
    Authentication(Seq<char>),
    ReplicationCommandFailed(Seq<char>),
    ReplicationCopyModeNotStarted,
    ReplicationProtocolViolation(Seq<char>),
    ReplicationStreamTimedOut,
    ServerStartupFailure(Seq<char>),
    BackendKeyDataInvalid,
    ParameterStatusInvalid,
    Utf8(Utf8Failure),
    HexDecode(HexError),
    ParseInt(IntErrorKind),
    ParseFloat(FloatErrorKind),
    ParseDateTime(Seq<char>),
    ParseValue(Seq<char>),
}

impl View for Error {
    type V = ErrorView;

    open spec fn view(&self) -> ErrorView {
        match *self {
            Error::Io(e) => ErrorView::Io(e.kind, e.message@),
            Error::UnexpectedEndOfData(what) => ErrorView::UnexpectedEndOfData(what@),
            Error::EmptyWalData => ErrorView::EmptyWalData,
            Error::EmptyCopyData => ErrorView::EmptyCopyData,
            Error::UnterminatedString => ErrorView::UnterminatedString,
            Error::InvalidAuthRequest => ErrorView::InvalidAuthRequest,
            Error::InvalidMd5AuthRequest => ErrorView::InvalidMd5AuthRequest,
            Error::Authentication(m) => ErrorView::Authentication(m@),
            Error::ReplicationCommandFailed(m) => ErrorView::ReplicationCommandFailed(m@),
            Error::ReplicationCopyModeNotStarted => ErrorView::ReplicationCopyModeNotStarted,
            Error::ReplicationProtocolViolation(m) => ErrorView::ReplicationProtocolViolation(m@),
            Error::ReplicationStreamTimedOut => ErrorView::ReplicationStreamTimedOut,
            Error::ServerStartupFailure(m) => ErrorView::ServerStartupFailure(m@),
            Error::BackendKeyDataInvalid => ErrorView::BackendKeyDataInvalid,
            Error::ParameterStatusInvalid => ErrorView::ParameterStatusInvalid,
            Error::Utf8(e) => ErrorView::Utf8(e),
            Error::HexDecode(e) => ErrorView::HexDecode(e),
            Error::ParseInt(k) => ErrorView::ParseInt(k),
            Error::ParseFloat(k) => ErrorView::ParseFloat(k),
            Error::ParseDateTime(m) => ErrorView::ParseDateTime(m@),
            Error::ParseValue(m) => ErrorView::ParseValue(m@),
        }
    }
}

/// A result whose error is a text, the text taken by its characters.
pub open spec fn text_outcome<T>(r: Result<T, String>) -> Result<T, Seq<char>> {
    match r {
        Ok(v) => Ok(v),
        Err(e) => Err(e@),
    }
}

/// The result of a fallible call with the error taken by its view.
pub open spec fn outcome<T>(r: Result<T, Error>) -> Result<T, ErrorView> {
    match r {
        Ok(v) => Ok(v),
        Err(e) => Err(e@),
    }
}

/// The result of a fallible call with both sides taken by their views.
pub open spec fn outcome_view<T: View>(r: Result<T, Error>) -> Result<T::V, ErrorView> {
    match r {
        Ok(v) => Ok(v@),
        Err(e) => Err(e@),
    }
}

} // verus!
