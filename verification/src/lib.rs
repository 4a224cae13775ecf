//! Client-side logic of PostgreSQL logical replication: message framing,
//! the startup and authentication handshake, the `pgoutput` change stream
//! with its relation cache, and the decoding of column values.
//!
//! Nothing here touches a socket. A [`Connection`] and a [`Subscriber`] are
//! told what the server sent and queue the bytes that have to go back; the
//! caller moves the bytes.

pub mod conn;
pub mod error;
pub mod frame;
pub mod hexcode;
pub mod number;
pub mod pgoutput;
pub mod sub;
pub mod temporal;
pub mod text;
pub mod value;
pub mod wire;

pub use conn::Connection;
pub use conn::Phase;
pub use error::Error;
pub use error::TransportError;
pub use error::TransportErrorKind;
pub use error::Utf8Failure;
pub use hexcode::HexError;
pub use frame::PgMessage;
pub use pgoutput::Column;
pub use pgoutput::Message;
pub use pgoutput::RelationInfo;
pub use sub::ReadEvent;
pub use sub::Subscriber;
pub use value::parse_binary_value;
pub use value::parse_text_value;
pub use value::Real;
pub use value::Value;
