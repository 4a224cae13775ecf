//! The startup and authentication handshake: the startup packet, the
//! answers to cleartext and MD5 password requests, and the messages that
//! follow until the server is ready for a command.

use crate::error::Error;
use crate::error::ErrorView;
use crate::error::outcome;
use crate::frame::AUTHENTICATION_REQUEST;
use crate::frame::BACKEND_KEY_DATA;
use crate::frame::ERROR_RESPONSE;
use crate::frame::max_payload_len;
use crate::frame::spec_max_payload_len;
use crate::frame::NOTICE_RESPONSE;
use crate::frame::PARAMETER_STATUS;
use crate::frame::PASSWORD_MESSAGE;
use crate::frame::READY_FOR_QUERY;
use crate::frame::PgMessage;
use crate::frame::spec_frame;
use crate::frame::spec_write_message;
use crate::frame::write_message;
use crate::hexcode::hex_string;
use crate::hexcode::lemma_hex_string_chars;
use crate::hexcode::push_hex;
use crate::number::spec_render_int;
use crate::text::ascii_chars;
use crate::text::ascii_to_string;
use crate::text::int_to_string;
use crate::text::is_ascii_bytes;
use crate::text::message_with;
use crate::text::str_from_utf8;
use crate::text::string_push;
use crate::wire::be_bytes_u32;
use crate::wire::be_u32;
use crate::wire::first_nul;
use crate::wire::i32_from_bits;
use crate::wire::nul_position;
use crate::wire::push_be_u32;
use crate::wire::signed32;
use crate::wire::u32_from_be;
use vstd::prelude::*;
use vstd::string::StringExecFns;
use vstd::utf8::*;

verus! {

/// Protocol version 3.0.
pub const PROTOCOL_VERSION: u32 = 196608;

/// The authentication code that accepts the credentials.
pub const AUTH_OK: i32 = 0;

/// The authentication code that asks for the password in clear.
pub const AUTH_CLEARTEXT: i32 = 3;

/// The authentication code that asks for the MD5 answer.
pub const AUTH_MD5: i32 = 5;

/// The length of the answer to an MD5 password request: `md5` and the
/// thirty-two hexadecimal digits of a digest.
pub const MD5_PASSWORD_LEN: usize = 35;

/// The field code of the message in an error or notice response, `M`.
pub const FIELD_MESSAGE: u8 = 0x4d;

/// The field code of the severity in an error or notice response, `S`.
pub const FIELD_SEVERITY: u8 = 0x53;

/// Where a connection stands in its handshake.
#[derive(Debug, Clone, Copy, PartialEq, Eq, Structural)]
pub enum Phase {
    /// The startup packet is out; the server has not yet accepted the
    /// credentials.
    Authenticating,
    /// Authenticated; the server is still sending its session parameters.
    Starting,
    /// The server is ready for a command.
    Ready,
}

/// The MD5 digest of `data`, sixteen bytes, as `md5::compute` returns it.
pub uninterp spec fn md5_digest(data: Seq<u8>) -> Seq<u8>;

/// `md5::compute`: the sixteen bytes of the MD5 digest of `data`.
#[verifier::external_body]
pub(crate) fn md5_compute(data: &[u8]) -> (r: Vec<u8>)
    ensures
        r@ == md5_digest(data@),
        r@.len() == 16,
{
    md5::compute(data).0.to_vec()
}

/// The bytes `md5`.
pub open spec fn md5_prefix() -> Seq<u8> {
    seq![0x6du8, 0x64u8, 0x35u8]
}

/// The answer to an MD5 password request, from the digest that closes the
/// computation: `md5` and the digest in lowercase hexadecimal.
pub open spec fn spec_md5_response(outer_digest: Seq<u8>) -> Seq<u8> {
    md5_prefix() + hex_string(outer_digest)
}

/// The answer to an MD5 password request: the digest of password and user
/// name, written in hexadecimal, is digested again together with the salt.
pub open spec fn spec_md5_password(password: Seq<u8>, user: Seq<u8>, salt: Seq<u8>) -> Seq<u8> {
    spec_md5_response(md5_digest(hex_string(md5_digest(password + user)) + salt))
}

/// A name and a value, each closed by a NUL.
pub open spec fn spec_string_param(name: Seq<u8>, value: Seq<u8>) -> Seq<u8> {
    name + seq![0u8] + value + seq![0u8]
}

/// The body of the startup packet: the protocol version, then the
/// parameters `user`, `database` and `replication=database`, then a NUL.
pub open spec fn spec_startup_body(user: Seq<u8>, database: Seq<u8>) -> Seq<u8> {
    be_bytes_u32(PROTOCOL_VERSION as int) + spec_string_param(encode_utf8("user"@), user)
        + spec_string_param(encode_utf8("database"@), database) + spec_string_param(
        encode_utf8("replication"@),
        encode_utf8("database"@),
    ) + seq![0u8]
}

/// The startup packet: it has no type byte, and its length counts itself.
pub open spec fn spec_startup_packet(user: Seq<u8>, database: Seq<u8>) -> Seq<u8> {
    be_bytes_u32(spec_startup_body(user, database).len() as int + 4) + spec_startup_body(
        user,
        database,
    )
}

/// What follows an error or notice field code: the bytes up to the next NUL
/// are the value, and the fields after it begin behind that NUL.
pub open spec fn spec_field_value(body: Seq<u8>) -> Seq<u8> {
    body.take(first_nul(body))
}

/// The bytes behind the value of a field and its NUL.
pub open spec fn spec_after_field(body: Seq<u8>) -> Seq<u8> {
    if 0 <= first_nul(body) < body.len() {
        body.skip(first_nul(body) + 1)
    } else {
        Seq::empty()
    }
}

/// Walks the fields of an error or notice response: each is a code byte and
/// a NUL-terminated value; a code of zero ends them. Gives the last `M`
/// (message) and the last `S` (severity) among the values that are UTF-8.
pub open spec fn spec_error_fields(
    data: Seq<u8>,
    message: Seq<char>,
    severity: Option<Seq<char>>,
) -> (Seq<char>, Option<Seq<char>>)
    decreases data.len(),
{
    if data.len() == 0 || data[0] == 0 {
        (message, severity)
    } else {
        let value = spec_field_value(data.skip(1));
        let rest = spec_after_field(data.skip(1));
        if valid_utf8(value) && data[0] == FIELD_MESSAGE {
            spec_error_fields(rest, decode_utf8(value), severity)
        } else if valid_utf8(value) && data[0] == FIELD_SEVERITY {
            spec_error_fields(rest, message, Some(decode_utf8(value)))
        } else {
            spec_error_fields(rest, message, severity)
        }
    }
}

/// The text of an error or notice response: its message, behind its
/// severity and a colon where it has one.
pub open spec fn spec_error_message(data: Seq<u8>) -> Seq<char> {
    let (message, severity) = spec_error_fields(data, Seq::empty(), None);
    match severity {
        Some(s) => s + ": "@ + message,
        None => message,
    }
}

/// The text of an error or notice response: see [`spec_error_message`].
pub fn parse_pg_error_message(data: &[u8]) -> (r: Result<String, Error>)
    ensures
        r is Ok,
        r->Ok_0@ == spec_error_message(data@),
{
    let mut message = String::new();
    let mut severity: Option<String> = None;
    let mut rest: &[u8] = data;
    while rest.len() > 0 && rest[0] != 0
        invariant
            spec_error_fields(data@, Seq::empty(), None) == spec_error_fields(
                rest@,
                message@,
                match severity {
                    Some(s) => Some(s@),
                    None => None,
                },
            ),
        decreases rest@.len(),
    {
        let field_type = rest[0];
        let body = &rest[1..rest.len()];
        assert(body@ =~= rest@.skip(1));
        let n = nul_position(body);
        let field_value = &body[0..n];
        assert(field_value@ =~= spec_field_value(body@));
        if n < body.len() {
            rest = &body[n + 1..body.len()];
            assert(rest@ =~= spec_after_field(body@));
        } else {
            rest = &body[n..body.len()];
            assert(rest@ =~= spec_after_field(body@));
        }
        match str_from_utf8(field_value) {
            Ok(value) => {
                proof {
                    encode_utf8_decode_utf8(value@);
                }
                if field_type == FIELD_MESSAGE {
                    message = value.to_owned();
                } else if field_type == FIELD_SEVERITY {
                    severity = Some(value.to_owned());
                }
            },
            Err(_) => {},
        }
    }
    match severity {
        Some(s) => Ok(s.concat(": ").concat(message.as_str())),
        None => Ok(message),
    }
}

/// The answer to an MD5 password request, from the digest that closes the
/// computation.
pub fn md5_response(outer_digest: &[u8]) -> (r: String)
    ensures
        r@ == ascii_chars(spec_md5_response(outer_digest@)),
        r@.len() == 3 + 2 * outer_digest@.len(),
{
    let mut buffer: Vec<u8> = Vec::new();
    buffer.push(0x6d);
    buffer.push(0x64);
    buffer.push(0x35);
    push_hex(&mut buffer, outer_digest);
    proof {
        assert(buffer@ =~= spec_md5_response(outer_digest@));
        lemma_hex_string_chars(outer_digest@);
        assert(is_ascii_bytes(buffer@)) by {
            assert forall|i: int| 0 <= i < buffer@.len() implies #[trigger] buffer@[i] < 128 by {
                if i >= 3 {
                    assert(buffer@[i] == hex_string(outer_digest@)[i - 3]);
                }
            }
        }
    }
    ascii_to_string(buffer.as_slice())
}

/// The text of a message about a message type: the prefix, then the type
/// byte as the character with that code.
pub fn message_about_type(prefix: &str, message_type: u8) -> (r: String)
    ensures
        r@ == prefix@.push(message_type as char),
{
    let mut text = prefix.to_owned();
    string_push(&mut text, message_type as char);
    text
}

/// What the server asks for, or says, in one message of the authentication
/// phase.
#[derive(Debug, Clone, PartialEq, Eq)]
pub enum AuthStep {
    /// The credentials are accepted.
    Accepted,
    /// A password message with this payload has to be sent.
    Reply(Vec<u8>),
}

/// The mathematical content of an [`AuthStep`].
pub enum AuthStepView {
    Accepted,
    Reply(Seq<u8>),
}

impl View for AuthStep {
    type V = AuthStepView;

    open spec fn view(&self) -> AuthStepView {
        match *self {
            AuthStep::Accepted => AuthStepView::Accepted,
            AuthStep::Reply(p) => AuthStepView::Reply(p@),
        }
    }
}

/// What one message of the authentication phase leads to. An
/// authentication request (`R`) carries a code: 0 accepts, 3 asks for the
/// password in clear, 5 for its MD5 answer under the salt that follows; any
/// other code is refused. An error response (`E`) fails the
/// authentication, and nothing else is allowed.
pub open spec fn spec_auth_step(
    message_type: u8,
    data: Seq<u8>,
    user: Seq<u8>,
    password: Seq<u8>,
) -> Result<AuthStepView, ErrorView> {
    if message_type == AUTHENTICATION_REQUEST {
        if data.len() < 4 {
            Err(ErrorView::InvalidAuthRequest)
        } else {
            let code = signed32(be_u32(data));
            if code == AUTH_OK {
                Ok(AuthStepView::Accepted)
            } else if code == AUTH_CLEARTEXT {
                Ok(AuthStepView::Reply(password + seq![0u8]))
            } else if code == AUTH_MD5 {
                if data.len() < 8 {
                    Err(ErrorView::InvalidMd5AuthRequest)
                } else {
                    Ok(
                        AuthStepView::Reply(
                            spec_md5_password(password, user, data.subrange(4, 8)) + seq![0u8],
                        ),
                    )
                }
            } else {
                Err(
                    ErrorView::Authentication(
                        "unsupported authentication method: "@ + ascii_chars(
                            spec_render_int(code),
                        ),
                    ),
                )
            }
        }
    } else if message_type == ERROR_RESPONSE {
        Err(ErrorView::Authentication(spec_error_message(data)))
    } else {
        Err(
            ErrorView::ReplicationProtocolViolation(
                "Unexpected message type during authentication: "@.push(message_type as char),
            ),
        )
    }
}

/// True for an authentication request that asks for the MD5 answer and
/// carries its salt.
pub open spec fn is_md5_request(message_type: u8, data: Seq<u8>) -> bool {
    message_type == AUTHENTICATION_REQUEST && data.len() >= 8 && signed32(be_u32(data))
        == AUTH_MD5
}

/// What one message after the authentication leads to.
#[derive(Debug, Clone, PartialEq, Eq)]
pub enum StartupStep {
    /// The message needs no action.
    Absorbed,
    /// The message is to be reported on the side channel.
    Report(String),
    /// The server is ready for a command.
    Ready,
}

/// The mathematical content of a [`StartupStep`].
pub enum StartupStepView {
    Absorbed,
    Report(Seq<char>),
    Ready,
}

impl View for StartupStep {
    type V = StartupStepView;

    open spec fn view(&self) -> StartupStepView {
        match *self {
            StartupStep::Absorbed => StartupStepView::Absorbed,
            StartupStep::Report(t) => StartupStepView::Report(t@),
            StartupStep::Ready => StartupStepView::Ready,
        }
    }
}

/// What one message after the authentication leads to: parameter status
/// (`S`) and backend key data (`K`) are absorbed, ready-for-query (`Z`) ends
/// the startup, an error (`E`) fails it, a notice (`N`) and every other
/// message are reported.
pub open spec fn spec_startup_step(message_type: u8, data: Seq<u8>) -> Result<
    StartupStepView,
    ErrorView,
> {
    if message_type == PARAMETER_STATUS || message_type == BACKEND_KEY_DATA {
        Ok(StartupStepView::Absorbed)
    } else if message_type == READY_FOR_QUERY {
        Ok(StartupStepView::Ready)
    } else if message_type == ERROR_RESPONSE {
        Err(ErrorView::ServerStartupFailure(spec_error_message(data)))
    } else if message_type == NOTICE_RESPONSE {
        Ok(StartupStepView::Report("Notice: "@ + spec_error_message(data)))
    } else {
        Ok(
            StartupStepView::Report(
                "Unhandled message type during startup: "@.push(message_type as char),
            ),
        )
    }
}

/// The client side of one replication connection, without its transport:
/// it is told what the server sent, and queues what has to be sent back.
pub struct Connection {
    user: String,
    password: String,
    phase: Phase,
    outgoing: Vec<u8>,
    notices: Vec<String>,
}

/// The texts by their characters.
pub open spec fn texts_view(texts: Seq<String>) -> Seq<Seq<char>> {
    Seq::new(texts.len(), |i: int| texts[i]@)
}

impl Connection {
    /// Where the handshake stands.
    pub closed spec fn spec_phase(&self) -> Phase {
        self.phase
    }

    /// The bytes queued for the server, oldest first.
    pub closed spec fn spec_outgoing(&self) -> Seq<u8> {
        self.outgoing@
    }

    /// The reports queued for the side channel, oldest first.
    pub closed spec fn spec_notices(&self) -> Seq<Seq<char>> {
        texts_view(self.notices@)
    }

    /// The user name, in UTF-8.
    pub closed spec fn spec_user(&self) -> Seq<u8> {
        encode_utf8(self.user@)
    }

    /// The password, in UTF-8.
    pub closed spec fn spec_password(&self) -> Seq<u8> {
        encode_utf8(self.password@)
    }

    /// True when nothing but phase, queue of bytes and queue of reports may
    /// differ between the two.
    pub open spec fn same_credentials(&self, other: &Connection) -> bool {
        self.spec_user() == other.spec_user() && self.spec_password() == other.spec_password()
    }

    /// Begins a replication connection for `user` on `database`: its
    /// startup packet is queued, and the server's answer is awaited. Fails,
    /// with nothing queued, where the names are too long for one packet.
    pub fn new(user: &str, password: &str, database: &str) -> (r: Result<Connection, Error>)
        ensures
            outcome(r) matches Err(e) ==> e == ErrorView::ReplicationProtocolViolation(
                "message too long"@,
            ),
            r is Ok <==> spec_startup_body(encode_utf8(user@), encode_utf8(database@)).len()
                <= spec_max_payload_len(false),
            r matches Ok(c) ==> {
                &&& c.spec_phase() == Phase::Authenticating
                &&& c.spec_outgoing() == spec_startup_packet(
                    encode_utf8(user@),
                    encode_utf8(database@),
                )
                &&& c.spec_notices() == Seq::<Seq<char>>::empty()
                &&& c.spec_user() == encode_utf8(user@)
                &&& c.spec_password() == encode_utf8(password@)
            },
    {
        let mut connection = Connection {
            user: user.to_owned(),
            password: password.to_owned(),
            phase: Phase::Authenticating,
            outgoing: Vec::new(),
            notices: Vec::new(),
        };
        assert(texts_view(connection.notices@) =~= Seq::empty());
        connection.send_startup_message(user, database)?;
        Ok(connection)
    }

    /// Queues the startup packet: see [`spec_startup_packet`]. Fails, with
    /// nothing queued, where the names are too long for one packet.
    pub fn send_startup_message(&mut self, user: &str, database: &str) -> (r: Result<(), Error>)
        ensures
            outcome(r) == spec_write_message(
                spec_startup_body(encode_utf8(user@), encode_utf8(database@)).len(),
                false,
            ),
            r is Ok ==> final(self).spec_outgoing() == old(self).spec_outgoing()
                + spec_startup_packet(encode_utf8(user@), encode_utf8(database@)),
            r is Err ==> final(self).spec_outgoing() == old(self).spec_outgoing(),
            final(self).spec_phase() == old(self).spec_phase(),
            final(self).spec_notices() == old(self).spec_notices(),
            final(self).same_credentials(old(self)),
    {
        let mut packet: Vec<u8> = Vec::new();
        push_be_u32(&mut packet, PROTOCOL_VERSION);
        let _ = Self::write_string_param(&mut packet, "user", user);
        let _ = Self::write_string_param(&mut packet, "database", database);
        let _ = Self::write_string_param(&mut packet, "replication", "database");
        packet.push(0);
        assert(packet@ =~= spec_startup_body(encode_utf8(user@), encode_utf8(database@)));
        if packet.len() > max_payload_len(false) {
            return Err(Error::ReplicationProtocolViolation("message too long".to_owned()));
        }
        let length: u32 = (packet.len() + 4) as u32;
        push_be_u32(&mut self.outgoing, length);
        self.outgoing.extend_from_slice(packet.as_slice());
        assert(self.outgoing@ =~= old(self).outgoing@ + spec_startup_packet(
            encode_utf8(user@),
            encode_utf8(database@),
        ));
        Ok(())
    }

    /// Appends a parameter of the startup packet: name and value, each
    /// closed by a NUL.
    pub fn write_string_param(packet: &mut Vec<u8>, name: &str, value: &str) -> (r: Result<
        (),
        Error,
    >)
        ensures
            r is Ok,
            final(packet)@ == old(packet)@ + spec_string_param(
                encode_utf8(name@),
                encode_utf8(value@),
            ),
    {
        packet.extend_from_slice(name.as_bytes());
        packet.push(0);
        packet.extend_from_slice(value.as_bytes());
        packet.push(0);
        assert(final(packet)@ =~= old(packet)@ + spec_string_param(
            encode_utf8(name@),
            encode_utf8(value@),
        ));
        Ok(())
    }

    /// Queues one message for the server: see [`write_message`].
    pub fn write_message(&mut self, message_type: u8, data: &[u8], copy_data: bool) -> (r: Result<
        (),
        Error,
    >)
        ensures
            outcome(r) == spec_write_message(data@.len(), copy_data),
            r is Ok ==> final(self).spec_outgoing() == old(self).spec_outgoing() + spec_frame(
                message_type,
                data@,
                copy_data,
            ),
            r is Err ==> final(self).spec_outgoing() == old(self).spec_outgoing(),
            final(self).spec_phase() == old(self).spec_phase(),
            final(self).spec_notices() == old(self).spec_notices(),
            final(self).same_credentials(old(self)),
    {
        write_message(&mut self.outgoing, message_type, data, copy_data)
    }

    /// Queues a password message: the text and a NUL, under the type `p`.
    pub fn send_password_message(&mut self, password: &str) -> (r: Result<(), Error>)
        ensures
            outcome(r) == spec_write_message(encode_utf8(password@).len() + 1, false),
            r is Ok ==> final(self).spec_outgoing() == old(self).spec_outgoing() + spec_frame(
                PASSWORD_MESSAGE,
                encode_utf8(password@) + seq![0u8],
                false,
            ),
            r is Err ==> final(self).spec_outgoing() == old(self).spec_outgoing(),
            final(self).spec_phase() == old(self).spec_phase(),
            final(self).spec_notices() == old(self).spec_notices(),
            final(self).same_credentials(old(self)),
    {
        let mut password_data: Vec<u8> = Vec::new();
        password_data.extend_from_slice(password.as_bytes());
        password_data.push(0);
        assert(password_data@ =~= encode_utf8(password@) + seq![0u8]);
        self.write_message(PASSWORD_MESSAGE, password_data.as_slice(), false)
    }

    /// The answer to an MD5 password request under `salt`: see
    /// [`spec_md5_password`].
    pub fn compute_md5_password(password: &str, username: &str, salt: &[u8]) -> (r: Result<
        String,
        Error,
    >)
        ensures
            r is Ok,
            r->Ok_0@ == ascii_chars(
                spec_md5_password(encode_utf8(password@), encode_utf8(username@), salt@),
            ),
            r->Ok_0@.len() == MD5_PASSWORD_LEN,
    {
        let mut inner_input: Vec<u8> = Vec::new();
        inner_input.extend_from_slice(password.as_bytes());
        inner_input.extend_from_slice(username.as_bytes());
        assert(inner_input@ =~= encode_utf8(password@) + encode_utf8(username@));
        let inner_hash = md5_compute(inner_input.as_slice());
        let mut outer_input: Vec<u8> = Vec::new();
        push_hex(&mut outer_input, inner_hash.as_slice());
        outer_input.extend_from_slice(salt);
        assert(outer_input@ =~= hex_string(inner_hash@) + salt@);
        let outer_hash = md5_compute(outer_input.as_slice());
        Ok(md5_response(outer_hash.as_slice()))
    }

    /// The text of an error or notice response: see
    /// [`spec_error_message`].
    pub fn parse_error_message(data: &[u8]) -> (r: Result<String, Error>)
        ensures
            r is Ok,
            r->Ok_0@ == spec_error_message(data@),
    {
        parse_pg_error_message(data)
    }

    /// Takes one message of the authentication phase: see
    /// [`spec_auth_step`]. An acceptance moves the connection on to the
    /// rest of the startup; a password request queues the answer; an error
    /// leaves the connection as it was. The answer to an MD5 request always
    /// fits its message; a password sent in clear may be too long for one.
    pub fn handle_authentication(&mut self, message: &PgMessage) -> (r: Result<(), Error>)
        ensures
            match spec_auth_step(
                message.message_type,
                message.data@,
                old(self).spec_user(),
                old(self).spec_password(),
            ) {
                Ok(AuthStepView::Accepted) => {
                    &&& r is Ok
                    &&& final(self).spec_phase() == Phase::Starting
                    &&& final(self).spec_outgoing() == old(self).spec_outgoing()
                },
                Ok(AuthStepView::Reply(payload)) => {
                    &&& outcome(r) == spec_write_message(payload.len(), false)
                    &&& final(self).spec_phase() == old(self).spec_phase()
                    &&& final(self).spec_outgoing() == if r is Ok {
                        old(self).spec_outgoing() + spec_frame(
                PASSWORD_MESSAGE, payload, false)
                    } else {
                        old(self).spec_outgoing()
                    }
                },
                Err(e) => {
                    &&& outcome(r) == Err::<(), ErrorView>(e)
                    &&& final(self).spec_phase() == old(self).spec_phase()
                    &&& final(self).spec_outgoing() == old(self).spec_outgoing()
                },
            },
            is_md5_request(message.message_type, message.data@) ==> r is Ok,
            final(self).spec_notices() == old(self).spec_notices(),
            final(self).same_credentials(old(self)),
    {
        let step = auth_step(message, self.user.as_str(), self.password.as_str())?;
        match step {
            AuthStep::Accepted => {
                self.phase = Phase::Starting;
                Ok(())
            },
            AuthStep::Reply(payload) => self.write_message(PASSWORD_MESSAGE, payload.as_slice(), false),
        }
    }

    /// Takes one message of the startup that follows the authentication:
    /// see [`spec_startup_step`]. Ready-for-query makes the connection
    /// ready; what is to be reported is queued for the side channel.
    pub fn process_startup_messages(&mut self, message: &PgMessage) -> (r: Result<(), Error>)
        ensures
            match spec_startup_step(message.message_type, message.data@) {
                Ok(StartupStepView::Absorbed) => {
                    &&& r is Ok
                    &&& final(self).spec_phase() == old(self).spec_phase()
                    &&& final(self).spec_notices() == old(self).spec_notices()
                },
                Ok(StartupStepView::Ready) => {
                    &&& r is Ok
                    &&& final(self).spec_phase() == Phase::Ready
                    &&& final(self).spec_notices() == old(self).spec_notices()
                },
                Ok(StartupStepView::Report(text)) => {
                    &&& r is Ok
                    &&& final(self).spec_phase() == old(self).spec_phase()
                    &&& final(self).spec_notices() == old(self).spec_notices().push(text)
                },
                Err(e) => {
                    &&& outcome(r) == Err::<(), ErrorView>(e)
                    &&& final(self).spec_phase() == old(self).spec_phase()
                    &&& final(self).spec_notices() == old(self).spec_notices()
                },
            },
            final(self).spec_outgoing() == old(self).spec_outgoing(),
            final(self).same_credentials(old(self)),
    {
        let step = startup_step(message)?;
        match step {
            StartupStep::Absorbed => {},
            StartupStep::Ready => {
                self.phase = Phase::Ready;
            },
            StartupStep::Report(text) => {
                self.report(text);
            },
        }
        Ok(())
    }

    /// True once the server is ready for a command.
    pub fn is_ready(&self) -> (r: bool)
        ensures
            r == (self.spec_phase() == Phase::Ready),
    {
        match self.phase {
            Phase::Ready => true,
            _ => false,
        }
    }

    /// Where the handshake stands.
    pub fn phase(&self) -> (r: Phase)
        ensures
            r == self.spec_phase(),
    {
        self.phase
    }

    /// Hands over the bytes queued for the server and empties the queue.
    pub fn take_outgoing(&mut self) -> (r: Vec<u8>)
        ensures
            r@ == old(self).spec_outgoing(),
            final(self).spec_outgoing() == Seq::<u8>::empty(),
            final(self).spec_phase() == old(self).spec_phase(),
            final(self).spec_notices() == old(self).spec_notices(),
            final(self).same_credentials(old(self)),
    {
        let mut bytes: Vec<u8> = Vec::new();
        core::mem::swap(&mut bytes, &mut self.outgoing);
        bytes
    }

    /// Hands over the reports queued for the side channel and empties the
    /// queue.
    pub fn take_notices(&mut self) -> (r: Vec<String>)
        ensures
            texts_view(r@) == old(self).spec_notices(),
            final(self).spec_notices() == Seq::<Seq<char>>::empty(),
            final(self).spec_phase() == old(self).spec_phase(),
            final(self).spec_outgoing() == old(self).spec_outgoing(),
            final(self).same_credentials(old(self)),
    {
        let mut notices: Vec<String> = Vec::new();
        core::mem::swap(&mut notices, &mut self.notices);
        assert(texts_view(self.notices@) =~= Seq::empty());
        notices
    }

    /// Queues a report for the side channel.
    pub fn report(&mut self, text: String)
        ensures
            final(self).spec_notices() == old(self).spec_notices().push(text@),
            final(self).spec_phase() == old(self).spec_phase(),
            final(self).spec_outgoing() == old(self).spec_outgoing(),
            final(self).same_credentials(old(self)),
    {
        self.notices.push(text);
        assert(texts_view(self.notices@) =~= texts_view(old(self).notices@).push(text@));
    }
}

/// What one message of the authentication phase leads to: see
/// [`spec_auth_step`].
pub fn auth_step(message: &PgMessage, user: &str, password: &str) -> (r: Result<AuthStep, Error>)
    ensures
        crate::error::outcome_view(r) == spec_auth_step(
            message.message_type,
            message.data@,
            encode_utf8(user@),
            encode_utf8(password@),
        ),
        is_md5_request(message.message_type, message.data@) ==> (r matches Ok(
            AuthStep::Reply(p),
        ) && p@.len() == MD5_PASSWORD_LEN + 1),
{
    let data = message.data.as_slice();
    if message.message_type == AUTHENTICATION_REQUEST {
        if data.len() < 4 {
            return Err(Error::InvalidAuthRequest);
        }
        let auth_type = i32_from_bits(u32_from_be(data));
        if auth_type == AUTH_OK {
            Ok(AuthStep::Accepted)
        } else if auth_type == AUTH_CLEARTEXT {
            let mut payload: Vec<u8> = Vec::new();
            payload.extend_from_slice(password.as_bytes());
            payload.push(0);
            assert(payload@ =~= encode_utf8(password@) + seq![0u8]);
            Ok(AuthStep::Reply(payload))
        } else if auth_type == AUTH_MD5 {
            if data.len() < 8 {
                return Err(Error::InvalidMd5AuthRequest);
            }
            let salt = &data[4..8];
            let md5_password = match Connection::compute_md5_password(password, user, salt) {
                Ok(p) => p,
                Err(e) => {
                    return Err(e);
                },
            };
            let mut payload: Vec<u8> = Vec::new();
            payload.extend_from_slice(md5_password.as_str().as_bytes());
            payload.push(0);
            proof {
                let answer = spec_md5_password(
                    encode_utf8(password@),
                    encode_utf8(user@),
                    data@.subrange(4, 8),
                );
                lemma_md5_password_is_ascii(
                    encode_utf8(password@),
                    encode_utf8(user@),
                    data@.subrange(4, 8),
                );
                crate::text::lemma_ascii_is_utf8(answer);
                assert(payload@ =~= answer + seq![0u8]);
            }
            Ok(AuthStep::Reply(payload))
        } else {
            Err(
                Error::Authentication(
                    message_with(
                        "unsupported authentication method: ",
                        int_to_string(auth_type as i64).as_str(),
                    ),
                ),
            )
        }
    } else if message.message_type == ERROR_RESPONSE {
        let text = match parse_pg_error_message(data) {
            Ok(t) => t,
            Err(e) => {
                return Err(e);
            },
        };
        Err(Error::Authentication(text))
    } else {
        Err(
            Error::ReplicationProtocolViolation(
                message_about_type(
                    "Unexpected message type during authentication: ",
                    message.message_type,
                ),
            ),
        )
    }
}

/// The answer to an MD5 password request is ASCII.
pub proof fn lemma_md5_password_is_ascii(password: Seq<u8>, user: Seq<u8>, salt: Seq<u8>)
    ensures
        is_ascii_bytes(spec_md5_password(password, user, salt)),
{
    let outer = md5_digest(hex_string(md5_digest(password + user)) + salt);
    let answer = spec_md5_response(outer);
    lemma_hex_string_chars(outer);
    assert forall|i: int| 0 <= i < answer.len() implies #[trigger] answer[i] < 128 by {
        if i >= 3 {
            assert(answer[i] == hex_string(outer)[i - 3]);
        }
    }
}

/// What one message after the authentication leads to: see
/// [`spec_startup_step`].
pub fn startup_step(message: &PgMessage) -> (r: Result<StartupStep, Error>)
    ensures
        crate::error::outcome_view(r) == spec_startup_step(message.message_type, message.data@),
{
    let data = message.data.as_slice();
    if message.message_type == PARAMETER_STATUS || message.message_type
        == BACKEND_KEY_DATA {
        Ok(StartupStep::Absorbed)
    } else if message.message_type == READY_FOR_QUERY {
        Ok(StartupStep::Ready)
    } else if message.message_type == ERROR_RESPONSE {
        let text = match parse_pg_error_message(data) {
            Ok(t) => t,
            Err(e) => {
                return Err(e);
            },
        };
        Err(Error::ServerStartupFailure(text))
    } else if message.message_type == NOTICE_RESPONSE {
        let text = match parse_pg_error_message(data) {
            Ok(t) => t,
            Err(e) => {
                return Err(e);
            },
        };
        Ok(StartupStep::Report(message_with("Notice: ", text.as_str())))
    } else {
        Ok(
            StartupStep::Report(
                message_about_type("Unhandled message type during startup: ", message.message_type),
            ),
        )
    }
}

} // verus!
