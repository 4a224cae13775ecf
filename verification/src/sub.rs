//! The replication stream: the command that starts it, keepalives and WAL
//! data, the relation cache, the last received position, and standby status
//! updates.

use crate::conn::Connection;
use crate::conn::message_about_type;
use crate::conn::parse_pg_error_message;
use crate::conn::Phase;
use crate::conn::spec_error_message;
use crate::error::Error;
use crate::error::ErrorView;
use crate::error::outcome;
use crate::error::TransportError;
use crate::error::TransportErrorKind;
use crate::frame::COPY_BOTH_RESPONSE;
use crate::frame::ERROR_RESPONSE;
use crate::frame::KEEPALIVE;
use crate::frame::spec_max_payload_len;
use crate::frame::QUERY;
use crate::frame::STANDBY_STATUS_UPDATE;
use crate::frame::WAL_DATA;
use crate::frame::PgMessage;
use crate::frame::spec_frame;
use crate::pgoutput::copy_columns;
use crate::pgoutput::Message;
use crate::pgoutput::MessageView;
use crate::pgoutput::parse_wal_data;
use crate::pgoutput::RelationCache;
use crate::pgoutput::RelationInfo;
use crate::pgoutput::RelationInfoView;
use crate::pgoutput::spec_parse_wal_data;
use crate::temporal::unix_microseconds_now;
use crate::temporal::MAX_UNIX_MICROSECONDS;
use crate::temporal::MIN_UNIX_MICROSECONDS;
use crate::text::message_with;
use crate::wire::be_bytes_u64;
use crate::wire::be_u64;
use crate::wire::i64_to_bits;
use crate::wire::push_be_u64;
use crate::wire::u64_from_be;
use crate::wire::unsigned64;
use std::collections::HashMap;
use vstd::prelude::*;
use vstd::utf8::*;

verus! {

broadcast use vstd::std_specs::hash::group_hash_axioms;

/// A reading of the monotonic clock. Nothing of it is read here: it is kept
/// to ask later how much time has passed.
#[verifier::external_type_specification]
#[verifier::external_body]
pub struct ExInstant(std::time::Instant);

/// `std::time::Instant::now`: the monotonic clock as it stands.
#[verifier::external_body]
pub(crate) fn instant_now() -> std::time::Instant {
    std::time::Instant::now()
}

/// `std::time::Instant::elapsed`: the time that has passed since the
/// reading.
#[verifier::external_body]
pub(crate) fn instant_elapsed(since: &std::time::Instant) -> core::time::Duration {
    since.elapsed()
}

/// `core::time::Duration::as_nanos`: a span of time in nanoseconds.
#[verifier::external_body]
pub(crate) fn duration_as_nanos(span: &core::time::Duration) -> u128 {
    span.as_nanos()
}

/// A standby status update is due after this many nanoseconds without one:
/// ten seconds.
pub const STATUS_INTERVAL_NANOS: u128 = 10_000_000_000;

/// The microseconds between the Unix epoch and 2000-01-01 00:00:00 UTC.
pub const PG_EPOCH_UNIX_MICROSECONDS: i64 = 946_684_800_000_000;

/// What the transport handed over for one read.
#[derive(Debug, Clone, PartialEq, Eq)]
pub enum ReadEvent {
    /// One frame, read in copy mode.
    Frame(PgMessage),
    /// The read failed.
    Failed(TransportError),
}

/// What one frame of the stream leads to.
#[derive(Debug, PartialEq)]
pub struct StreamStep {
    /// The last received WAL position after the frame.
    pub lsn: u64,
    /// True when the server asks for a status update at once.
    pub reply_requested: bool,
    /// What is to be reported on the side channel.
    pub notice: Option<String>,
    /// The change record that the frame carried, if it carried one, or why it
    /// could not be decoded.
    pub result: Result<Option<Message>, Error>,
}

/// The mathematical content of a [`StreamStep`].
pub struct StreamStepView {
    pub lsn: u64,
    pub reply_requested: bool,
    pub notice: Option<Seq<char>>,
    pub result: Result<Option<MessageView>, ErrorView>,
}

impl View for StreamStep {
    type V = StreamStepView;

    open spec fn view(&self) -> StreamStepView {
        StreamStepView {
            lsn: self.lsn,
            reply_requested: self.reply_requested,
            notice: match self.notice {
                Some(t) => Some(t@),
                None => None,
            },
            result: match self.result {
                Ok(Some(m)) => Ok(Some(m@)),
                Ok(None) => Ok(None),
                Err(e) => Err(e@),
            },
        }
    }
}

/// The larger of the two positions.
pub open spec fn max_lsn(a: u64, b: u64) -> u64 {
    if b > a {
        b
    } else {
        a
    }
}

/// A step that changes nothing and yields nothing.
pub open spec fn idle_step(lsn: u64) -> StreamStepView {
    StreamStepView { lsn, reply_requested: false, notice: None, result: Ok(None) }
}

/// What one frame of the stream leads to, with `last_lsn` the last received
/// position before it.
///
/// A keepalive (`k`) of at least 17 bytes raises the position to its WAL end
/// and may ask for a reply; a shorter one is passed over. WAL data (`w`) of
/// more than 24 bytes raises the position to its WAL end and carries a change
/// record behind its 24-byte prefix; shorter WAL data is passed over. An
/// error response (`E`) and every other frame are reported and passed over.
pub open spec fn spec_stream_step(
    cache: RelationCache,
    last_lsn: u64,
    message_type: u8,
    data: Seq<u8>,
) -> StreamStepView {
    if message_type == KEEPALIVE {
        if data.len() >= 17 {
            StreamStepView {
                lsn: max_lsn(last_lsn, be_u64(data) as u64),
                reply_requested: data[16] != 0,
                notice: None,
                result: Ok(None),
            }
        } else {
            idle_step(last_lsn)
        }
    } else if message_type == WAL_DATA {
        if data.len() > 24 {
            StreamStepView {
                lsn: max_lsn(last_lsn, be_u64(data.skip(8)) as u64),
                reply_requested: false,
                notice: None,
                result: match spec_parse_wal_data(data.skip(24), cache) {
                    Ok(m) => Ok(Some(m)),
                    Err(e) => Err(e),
                },
            }
        } else {
            idle_step(last_lsn)
        }
    } else if message_type == ERROR_RESPONSE {
        StreamStepView {
            lsn: last_lsn,
            reply_requested: false,
            notice: Some("Error from server: "@ + spec_error_message(data)),
            result: Ok(None),
        }
    } else {
        StreamStepView {
            lsn: last_lsn,
            reply_requested: false,
            notice: Some("Unhandled message type: "@.push(message_type as char)),
            result: Ok(None),
        }
    }
}

/// The position never moves backwards, whatever the frame.
pub proof fn lemma_stream_step_lsn_monotonic(
    cache: RelationCache,
    last_lsn: u64,
    message_type: u8,
    data: Seq<u8>,
)
    ensures
        spec_stream_step(cache, last_lsn, message_type, data).lsn >= last_lsn,
{
}

/// The payload of a standby status update: the position three times (as
/// written, flushed and applied), the client's clock in microseconds since
/// 2000-01-01 00:00:00 UTC, and a zero byte for "no reply requested".
pub open spec fn spec_status_payload(lsn: u64, client_time: i64) -> Seq<u8> {
    be_bytes_u64(lsn as int) + be_bytes_u64(lsn as int) + be_bytes_u64(lsn as int) + be_bytes_u64(
        unsigned64(client_time as int),
    ) + seq![0u8]
}

/// True when a standby status update is due: ten seconds or more lie between
/// the two readings of the timer, the one at the last update and the one
/// now.
pub open spec fn spec_status_update_due(last_status_update: u128, now: u128) -> bool {
    now - last_status_update >= STATUS_INTERVAL_NANOS
}

/// True for the readings of the system clock that can be had, in
/// microseconds since the Unix epoch.
pub open spec fn is_clock_reading(unix_microseconds: i64) -> bool {
    MIN_UNIX_MICROSECONDS <= unix_microseconds <= MAX_UNIX_MICROSECONDS
}

/// The client time of a standby status update, microseconds since
/// 2000-01-01 00:00:00 UTC, for a reading of the system clock in microseconds
/// since the Unix epoch.
pub open spec fn spec_client_time(unix_microseconds: i64) -> i64 {
    (unix_microseconds - PG_EPOCH_UNIX_MICROSECONDS) as i64
}

/// The frame of a standby status update for the position `lsn`, sent when
/// the system clock reads `unix_microseconds`.
pub open spec fn spec_status_update(lsn: u64, unix_microseconds: i64) -> Seq<u8> {
    spec_frame(
        STANDBY_STATUS_UPDATE,
        spec_status_payload(lsn, spec_client_time(unix_microseconds)),
        true,
    )
}

/// The text of the command that starts the replication.
pub open spec fn spec_start_replication_command(slot: Seq<u8>, publication: Seq<u8>) -> Seq<u8> {
    encode_utf8("START_REPLICATION SLOT "@) + slot + encode_utf8(
        " LOGICAL 0/0 (proto_version '1', publication_names '"@,
    ) + publication + encode_utf8("')"@)
}

/// The payload of the query that starts the replication: the command and a
/// NUL.
pub open spec fn spec_start_replication_query(slot: Seq<u8>, publication: Seq<u8>) -> Seq<u8> {
    spec_start_replication_command(slot, publication) + seq![0u8]
}

/// What one answer to the replication command leads to.
#[derive(Debug, Clone, PartialEq, Eq)]
pub enum StartStep {
    /// The server entered copy mode.
    Started,
    /// The message is reported and passed over.
    Report(String),
}

/// The mathematical content of a [`StartStep`].
pub enum StartStepView {
    Started,
    Report(Seq<char>),
}

impl View for StartStep {
    type V = StartStepView;

    open spec fn view(&self) -> StartStepView {
        match *self {
            StartStep::Started => StartStepView::Started,
            StartStep::Report(t) => StartStepView::Report(t@),
        }
    }
}

/// What one answer to the replication command leads to: a copy-both
/// response (`W`) starts the stream, an error (`E`) fails the command, every
/// other message is reported and passed over.
pub open spec fn spec_start_step(message_type: u8, data: Seq<u8>) -> Result<
    StartStepView,
    ErrorView,
> {
    if message_type == COPY_BOTH_RESPONSE {
        Ok(StartStepView::Started)
    } else if message_type == ERROR_RESPONSE {
        Err(ErrorView::ReplicationCommandFailed(spec_error_message(data)))
    } else {
        Ok(StartStepView::Report("Unexpected message type: "@.push(message_type as char)))
    }
}

/// True where `after` is `before` with the relation of a relation record
/// installed under its id, and `before` itself for every other outcome.
pub open spec fn cache_follows(
    before: RelationCache,
    after: RelationCache,
    result: Result<Option<MessageView>, ErrorView>,
) -> bool {
    match result {
        Ok(Some(MessageView::Relation { id, namespace, name, replica_identity, columns })) => {
            &&& after.dom() == before.dom().insert(id)
            &&& after[id]@ == (RelationInfoView { namespace, name, columns, replica_identity })
            &&& forall|k: u32| k != id && before.contains_key(k) ==> after[k] == before[k]
        },
        _ => after == before,
    }
}

/// True when a standby status update is due: see
/// [`spec_status_update_due`].
pub fn status_update_due(last_status_update: u128, now: u128) -> (r: bool)
    ensures
        r == spec_status_update_due(last_status_update, now),
{
    now >= last_status_update && now - last_status_update >= STATUS_INTERVAL_NANOS
}

/// True for the failures after which the read is simply tried again.
pub fn is_transient(kind: TransportErrorKind) -> (r: bool)
    ensures
        r == (kind == TransportErrorKind::WouldBlock || kind == TransportErrorKind::TimedOut),
{
    match kind {
        TransportErrorKind::WouldBlock => true,
        TransportErrorKind::TimedOut => true,
        TransportErrorKind::Other => false,
    }
}

/// The payload of a standby status update: see [`spec_status_payload`].
pub fn standby_status_payload(lsn: u64, client_time: i64) -> (r: Vec<u8>)
    ensures
        r@ == spec_status_payload(lsn, client_time),
{
    let mut message_data: Vec<u8> = Vec::new();
    push_be_u64(&mut message_data, lsn);
    push_be_u64(&mut message_data, lsn);
    push_be_u64(&mut message_data, lsn);
    push_be_u64(&mut message_data, i64_to_bits(client_time));
    message_data.push(0);
    message_data
}

/// The payload of the query that starts the replication: see
/// [`spec_start_replication_query`].
pub fn start_replication_query(slot_name: &str, publication_name: &str) -> (r: Vec<u8>)
    ensures
        r@ == spec_start_replication_query(
            encode_utf8(slot_name@),
            encode_utf8(publication_name@),
        ),
{
    let mut query_data: Vec<u8> = Vec::new();
    query_data.extend_from_slice("START_REPLICATION SLOT ".as_bytes());
    query_data.extend_from_slice(slot_name.as_bytes());
    query_data.extend_from_slice(
        " LOGICAL 0/0 (proto_version '1', publication_names '".as_bytes(),
    );
    query_data.extend_from_slice(publication_name.as_bytes());
    query_data.extend_from_slice("')".as_bytes());
    query_data.push(0);
    assert(query_data@ =~= spec_start_replication_query(
        encode_utf8(slot_name@),
        encode_utf8(publication_name@),
    ));
    query_data
}

/// What one answer to the replication command leads to: see
/// [`spec_start_step`].
pub fn start_step(message: &PgMessage) -> (r: Result<StartStep, Error>)
    ensures
        crate::error::outcome_view(r) == spec_start_step(message.message_type, message.data@),
{
    if message.message_type == COPY_BOTH_RESPONSE {
        Ok(StartStep::Started)
    } else if message.message_type == ERROR_RESPONSE {
        let text = match parse_pg_error_message(message.data.as_slice()) {
            Ok(t) => t,
            Err(e) => {
                return Err(e);
            },
        };
        Err(Error::ReplicationCommandFailed(text))
    } else {
        Ok(StartStep::Report(message_about_type("Unexpected message type: ", message.message_type)))
    }
}

/// What one frame of the stream leads to: see [`spec_stream_step`].
pub fn stream_step(cache: &HashMap<u32, RelationInfo>, last_lsn: u64, message: &PgMessage) -> (r:
    StreamStep)
    ensures
        r@ == spec_stream_step(cache@, last_lsn, message.message_type, message.data@),
{
    let data = message.data.as_slice();
    if message.message_type == KEEPALIVE {
        if data.len() >= 17 {
            let wal_end = u64_from_be(data);
            let lsn = if wal_end > last_lsn {
                wal_end
            } else {
                last_lsn
            };
            StreamStep { lsn, reply_requested: data[16] != 0, notice: None, result: Ok(None) }
        } else {
            StreamStep { lsn: last_lsn, reply_requested: false, notice: None, result: Ok(None) }
        }
    } else if message.message_type == WAL_DATA {
        if data.len() > 24 {
            let wal_end = u64_from_be(&data[8..16]);
            assert(be_u64(data@.subrange(8, 16)) == be_u64(data@.skip(8))) by {
                assert(data@.subrange(8, 16).skip(4) =~= data@.skip(8).skip(4).take(4));
                assert(be_u64(data@.subrange(8, 16)) == be_u64(data@.skip(8)));
            }
            let lsn = if wal_end > last_lsn {
                wal_end
            } else {
                last_lsn
            };
            let wal_data = &data[24..data.len()];
            assert(wal_data@ =~= data@.skip(24));
            let result = match parse_wal_data(cache, wal_data) {
                Ok(m) => Ok(Some(m)),
                Err(e) => Err(e),
            };
            StreamStep { lsn, reply_requested: false, notice: None, result }
        } else {
            StreamStep { lsn: last_lsn, reply_requested: false, notice: None, result: Ok(None) }
        }
    } else if message.message_type == ERROR_RESPONSE {
        let text = match parse_pg_error_message(data) {
            Ok(t) => t,
            Err(_) => String::new(),
        };
        StreamStep {
            lsn: last_lsn,
            reply_requested: false,
            notice: Some(message_with("Error from server: ", text.as_str())),
            result: Ok(None),
        }
    } else {
        StreamStep {
            lsn: last_lsn,
            reply_requested: false,
            notice: Some(message_about_type("Unhandled message type: ", message.message_type)),
            result: Ok(None),
        }
    }
}

/// The client side of one logical replication stream, without its
/// transport: it is told what the server sent, keeps the relations and the
/// position, and queues what has to be sent back.
pub struct Subscriber {
    connection: Connection,
    slot_name: String,
    publication_name: String,
    relation_cache: HashMap<u32, RelationInfo>,
    last_received_lsn: u64,
    timer: std::time::Instant,
    last_status_update: u128,
    streaming: bool,
}

impl Subscriber {
    /// The relations seen so far, by relation id.
    pub closed spec fn spec_cache(&self) -> RelationCache {
        self.relation_cache@
    }

    /// The last WAL position received.
    pub closed spec fn spec_last_received_lsn(&self) -> u64 {
        self.last_received_lsn
    }

    /// True once the server has entered copy mode.
    pub closed spec fn spec_streaming(&self) -> bool {
        self.streaming
    }

    /// What the timer read when the last standby status update was queued,
    /// in nanoseconds since the subscriber was made; zero before the first.
    pub closed spec fn spec_last_status_update(&self) -> u128 {
        self.last_status_update
    }

    /// The bytes queued for the server, oldest first.
    pub closed spec fn spec_outgoing(&self) -> Seq<u8> {
        self.connection.spec_outgoing()
    }

    /// The reports queued for the side channel, oldest first.
    pub closed spec fn spec_notices(&self) -> Seq<Seq<char>> {
        self.connection.spec_notices()
    }

    /// True when the two differ at most in what the stream changes: queues,
    /// relations, position, and whether the stream has started.
    pub closed spec fn same_session(&self, other: &Subscriber) -> bool {
        &&& self.slot_name@ == other.slot_name@
        &&& self.publication_name@ == other.publication_name@
        &&& self.connection.same_credentials(&other.connection)
        &&& self.connection.spec_phase() == other.connection.spec_phase()
    }

    /// Takes a connection that is ready for a command and queues the
    /// command that starts the replication from `slot_name` for
    /// `publication_name`. The stream starts once the server's answer has
    /// been given to [`Subscriber::start_replication`].
    ///
    /// Fails where the connection has not finished its startup, and where
    /// the names are too long for one message.
    pub fn new(connection: Connection, slot_name: &str, publication_name: &str) -> (r: Result<
        Subscriber,
        Error,
    >)
        ensures
            outcome(r) matches Err(e) ==> e == (if connection.spec_phase() != Phase::Ready {
                ErrorView::ReplicationProtocolViolation("connection is not ready"@)
            } else {
                ErrorView::ReplicationProtocolViolation("message too long"@)
            }),
            r is Ok <==> connection.spec_phase() == Phase::Ready && spec_start_replication_query(
                encode_utf8(slot_name@),
                encode_utf8(publication_name@),
            ).len() <= spec_max_payload_len(false),
            r matches Ok(s) ==> {
                &&& s.spec_outgoing() == connection.spec_outgoing() + spec_frame(
                    QUERY,
                    spec_start_replication_query(
                        encode_utf8(slot_name@),
                        encode_utf8(publication_name@),
                    ),
                    false,
                )
                &&& s.spec_notices() == connection.spec_notices()
                &&& s.spec_cache() == Map::<u32, RelationInfo>::empty()
                &&& s.spec_last_received_lsn() == 0
                &&& s.spec_last_status_update() == 0
                &&& !s.spec_streaming()
            },
    {
        if !connection.is_ready() {
            return Err(Error::ReplicationProtocolViolation("connection is not ready".to_owned()));
        }
        let mut subscriber = Subscriber {
            connection,
            slot_name: slot_name.to_owned(),
            publication_name: publication_name.to_owned(),
            relation_cache: HashMap::new(),
            last_received_lsn: 0,
            timer: instant_now(),
            last_status_update: 0,
            streaming: false,
        };
        let query_data = start_replication_query(slot_name, publication_name);
        subscriber.connection.write_message(QUERY, query_data.as_slice(), false)?;
        Ok(subscriber)
    }

    /// Takes one answer of the server to the replication command: see
    /// [`spec_start_step`].
    pub fn start_replication(&mut self, message: &PgMessage) -> (r: Result<(), Error>)
        ensures
            match spec_start_step(message.message_type, message.data@) {
                Ok(StartStepView::Started) => {
                    &&& r is Ok
                    &&& final(self).spec_streaming()
                    &&& final(self).spec_notices() == old(self).spec_notices()
                },
                Ok(StartStepView::Report(text)) => {
                    &&& r is Ok
                    &&& final(self).spec_streaming() == old(self).spec_streaming()
                    &&& final(self).spec_notices() == old(self).spec_notices().push(text)
                },
                Err(e) => {
                    &&& outcome(r) == Err::<(), ErrorView>(e)
                    &&& final(self).spec_streaming() == old(self).spec_streaming()
                    &&& final(self).spec_notices() == old(self).spec_notices()
                },
            },
            final(self).spec_outgoing() == old(self).spec_outgoing(),
            final(self).spec_cache() == old(self).spec_cache(),
            final(self).spec_last_received_lsn() == old(self).spec_last_received_lsn(),
            final(self).spec_last_status_update() == old(self).spec_last_status_update(),
            final(self).same_session(old(self)),
    {
        let step = start_step(message)?;
        match step {
            StartStep::Started => {
                self.streaming = true;
            },
            StartStep::Report(text) => {
                self.connection.report(text);
            },
        }
        Ok(())
    }

    /// What is known of the relation with the given id.
    pub fn relation_info(&self, relation_id: u32) -> (r: Option<&RelationInfo>)
        ensures
            r is Some <==> self.spec_cache().contains_key(relation_id),
            r is Some ==> *r->Some_0 == self.spec_cache()[relation_id],
    {
        self.relation_cache.get(&relation_id)
    }

    /// The last WAL position received.
    pub fn last_received_lsn(&self) -> (r: u64)
        ensures
            r == self.spec_last_received_lsn(),
    {
        self.last_received_lsn
    }

    /// True once the server has entered copy mode.
    pub fn is_streaming(&self) -> (r: bool)
        ensures
            r == self.spec_streaming(),
    {
        self.streaming
    }

    /// Hands over the bytes queued for the server and empties the queue.
    pub fn take_outgoing(&mut self) -> (r: Vec<u8>)
        ensures
            r@ == old(self).spec_outgoing(),
            final(self).spec_outgoing() == Seq::<u8>::empty(),
            final(self).spec_notices() == old(self).spec_notices(),
            final(self).spec_cache() == old(self).spec_cache(),
            final(self).spec_last_received_lsn() == old(self).spec_last_received_lsn(),
            final(self).spec_streaming() == old(self).spec_streaming(),
            final(self).spec_last_status_update() == old(self).spec_last_status_update(),
            final(self).same_session(old(self)),
    {
        self.connection.take_outgoing()
    }

    /// Hands over the reports queued for the side channel and empties the
    /// queue.
    pub fn take_notices(&mut self) -> (r: Vec<String>)
        ensures
            crate::conn::texts_view(r@) == old(self).spec_notices(),
            final(self).spec_notices() == Seq::<Seq<char>>::empty(),
            final(self).spec_outgoing() == old(self).spec_outgoing(),
            final(self).spec_cache() == old(self).spec_cache(),
            final(self).spec_last_received_lsn() == old(self).spec_last_received_lsn(),
            final(self).spec_streaming() == old(self).spec_streaming(),
            final(self).spec_last_status_update() == old(self).spec_last_status_update(),
            final(self).same_session(old(self)),
    {
        self.connection.take_notices()
    }

    /// Queues a standby status update for the last received position, with
    /// the given reading of the client's clock in microseconds since
    /// 2000-01-01 00:00:00 UTC.
    pub fn queue_standby_status(&mut self, client_time: i64) -> (r: Result<(), Error>)
        ensures
            r is Ok,
            final(self).spec_outgoing() == old(self).spec_outgoing() + spec_frame(
                STANDBY_STATUS_UPDATE,
                spec_status_payload(old(self).spec_last_received_lsn(), client_time),
                true,
            ),
            final(self).spec_notices() == old(self).spec_notices(),
            final(self).spec_cache() == old(self).spec_cache(),
            final(self).spec_last_received_lsn() == old(self).spec_last_received_lsn(),
            final(self).spec_streaming() == old(self).spec_streaming(),
            final(self).spec_last_status_update() == old(self).spec_last_status_update(),
            final(self).same_session(old(self)),
    {
        let message_data = standby_status_payload(self.last_received_lsn, client_time);
        self.connection.write_message(STANDBY_STATUS_UPDATE, message_data.as_slice(), true)
    }

    /// Queues a standby status update for the last received position, for a
    /// reading of the system clock in microseconds since the Unix epoch: the
    /// client time is that reading counted from 2000-01-01 00:00:00 UTC.
    pub fn queue_standby_status_at(&mut self, unix_microseconds: i64) -> (r: Result<(), Error>)
        requires
            unix_microseconds - PG_EPOCH_UNIX_MICROSECONDS >= i64::MIN,
        ensures
            r is Ok,
            final(self).spec_outgoing() == old(self).spec_outgoing() + spec_status_update(
                old(self).spec_last_received_lsn(),
                unix_microseconds,
            ),
            final(self).spec_notices() == old(self).spec_notices(),
            final(self).spec_cache() == old(self).spec_cache(),
            final(self).spec_last_received_lsn() == old(self).spec_last_received_lsn(),
            final(self).spec_last_status_update() == old(self).spec_last_status_update(),
            final(self).spec_streaming() == old(self).spec_streaming(),
            final(self).same_session(old(self)),
    {
        let pg_time: i64 = unix_microseconds - PG_EPOCH_UNIX_MICROSECONDS;
        self.queue_standby_status(pg_time)
    }

    /// Queues a standby status update for the last received position,
    /// stamped with the system clock. Fails, with nothing queued, where the
    /// clock cannot be read.
    pub fn send_standby_status_update(&mut self) -> (r: Result<(), Error>)
        ensures
            r is Ok ==> exists|unix_microseconds: i64|
                is_clock_reading(unix_microseconds) && final(self).spec_outgoing() == old(
                    self,
                ).spec_outgoing() + #[trigger] spec_status_update(
                    old(self).spec_last_received_lsn(),
                    unix_microseconds,
                ),
            r is Err ==> r->Err_0@ is ParseDateTime && final(self).spec_outgoing() == old(
                self,
            ).spec_outgoing(),
            final(self).spec_notices() == old(self).spec_notices(),
            final(self).spec_cache() == old(self).spec_cache(),
            final(self).spec_last_received_lsn() == old(self).spec_last_received_lsn(),
            final(self).spec_last_status_update() == old(self).spec_last_status_update(),
            final(self).spec_streaming() == old(self).spec_streaming(),
            final(self).same_session(old(self)),
    {
        let now = match unix_microseconds_now() {
            Ok(t) => t,
            Err(e) => {
                return Err(Error::ParseDateTime(e));
            },
        };
        self.queue_standby_status_at(now)
    }

    /// Queues a standby status update for the last received position and
    /// starts the timer anew, for a reading `now` of the timer and a reading
    /// of the system clock in microseconds since the Unix epoch.
    pub fn report_status_at(&mut self, now: u128, unix_microseconds: i64)
        requires
            unix_microseconds - PG_EPOCH_UNIX_MICROSECONDS >= i64::MIN,
        ensures
            final(self).spec_outgoing() == old(self).spec_outgoing() + spec_status_update(
                old(self).spec_last_received_lsn(),
                unix_microseconds,
            ),
            final(self).spec_last_status_update() == now,
            final(self).spec_notices() == old(self).spec_notices(),
            final(self).spec_cache() == old(self).spec_cache(),
            final(self).spec_last_received_lsn() == old(self).spec_last_received_lsn(),
            final(self).spec_streaming() == old(self).spec_streaming(),
            final(self).same_session(old(self)),
    {
        let _ = self.queue_standby_status_at(unix_microseconds);
        self.last_status_update = now;
    }

    /// The housekeeping before each read: where ten seconds have passed
    /// since the last standby status update, one is queued and the timer
    /// starts anew.
    pub fn heartbeat(&mut self) -> (r: Result<(), Error>)
        ensures
            r is Ok ==> (final(self).spec_outgoing() == old(self).spec_outgoing() && final(self).spec_last_status_update() == old(self).spec_last_status_update()) || exists|
                unix_microseconds: i64,
            |
                is_clock_reading(unix_microseconds) && final(self).spec_outgoing() == old(
                    self,
                ).spec_outgoing() + #[trigger] spec_status_update(
                    old(self).spec_last_received_lsn(),
                    unix_microseconds,
                ),
            r is Err ==> r->Err_0@ is ParseDateTime && final(self).spec_outgoing() == old(
                self,
            ).spec_outgoing() && final(self).spec_last_status_update() == old(
                self,
            ).spec_last_status_update(),
            final(self).spec_notices() == old(self).spec_notices(),
            final(self).spec_cache() == old(self).spec_cache(),
            final(self).spec_last_received_lsn() == old(self).spec_last_received_lsn(),
            final(self).spec_streaming() == old(self).spec_streaming(),
            final(self).same_session(old(self)),
    {
        let elapsed = instant_elapsed(&self.timer);
        self.heartbeat_at(duration_as_nanos(&elapsed))
    }

    /// The housekeeping for a given reading `now` of the timer, in
    /// nanoseconds since the subscriber was made. Less than ten seconds
    /// after the last standby status update nothing happens. From ten
    /// seconds on an update for the last received position is queued,
    /// stamped with the system clock, and the timer starts anew at `now`;
    /// where the clock cannot be read this fails, with nothing changed.
    pub fn heartbeat_at(&mut self, now: u128) -> (r: Result<(), Error>)
        ensures
            !spec_status_update_due(old(self).spec_last_status_update(), now) ==> {
                &&& r is Ok
                &&& final(self).spec_outgoing() == old(self).spec_outgoing()
                &&& final(self).spec_last_status_update() == old(self).spec_last_status_update()
            },
            spec_status_update_due(old(self).spec_last_status_update(), now) && r is Ok ==> {
                &&& final(self).spec_last_status_update() == now
                &&& exists|unix_microseconds: i64|
                    is_clock_reading(unix_microseconds) && final(self).spec_outgoing() == old(
                        self,
                    ).spec_outgoing() + #[trigger] spec_status_update(
                        old(self).spec_last_received_lsn(),
                        unix_microseconds,
                    )
            },
            r is Err ==> {
                &&& r->Err_0@ is ParseDateTime
                &&& final(self).spec_outgoing() == old(self).spec_outgoing()
                &&& final(self).spec_last_status_update() == old(self).spec_last_status_update()
            },
            final(self).spec_notices() == old(self).spec_notices(),
            final(self).spec_cache() == old(self).spec_cache(),
            final(self).spec_last_received_lsn() == old(self).spec_last_received_lsn(),
            final(self).spec_streaming() == old(self).spec_streaming(),
            final(self).same_session(old(self)),
    {
        if status_update_due(self.last_status_update, now) {
            let unix_microseconds = match unix_microseconds_now() {
                Ok(t) => t,
                Err(e) => {
                    return Err(Error::ParseDateTime(e));
                },
            };
            self.report_status_at(now, unix_microseconds);
        }
        Ok(())
    }

    /// Installs the relation of a relation record in the cache, in place of
    /// what was known under its id; every other message leaves the cache as
    /// it is.
    pub fn remember(&mut self, message: &Message)
        ensures
            cache_follows(
                old(self).spec_cache(),
                final(self).spec_cache(),
                Ok::<Option<MessageView>, ErrorView>(Some(message@)),
            ),
            final(self).spec_outgoing() == old(self).spec_outgoing(),
            final(self).spec_notices() == old(self).spec_notices(),
            final(self).spec_last_received_lsn() == old(self).spec_last_received_lsn(),
            final(self).spec_streaming() == old(self).spec_streaming(),
            final(self).spec_last_status_update() == old(self).spec_last_status_update(),
            final(self).same_session(old(self)),
    {
        match message {
            Message::Relation { id, namespace, name, replica_identity, columns } => {
                let info = RelationInfo {
                    namespace: namespace.clone(),
                    name: name.clone(),
                    columns: copy_columns(columns),
                    replica_identity: *replica_identity,
                };
                self.relation_cache.insert(*id, info);
            },
            _ => {},
        }
    }

    /// True when `event` asks for a standby status update at once: it is a
    /// frame of a stream that has started, and a keepalive that requests a
    /// reply.
    pub open spec fn replies_to(&self, event: ReadEvent) -> bool {
        event matches ReadEvent::Frame(message) && self.spec_streaming() && spec_stream_step(
            self.spec_cache(),
            self.spec_last_received_lsn(),
            message.message_type,
            message.data@,
        ).reply_requested
    }

    /// What one event makes of a subscriber, `before` the event and after
    /// it, and what is yielded.
    ///
    /// A failed read changes nothing; it is passed over where it only timed
    /// out or would have blocked, and is the error otherwise. A frame before
    /// the server has entered copy mode is refused and changes nothing. Any
    /// other frame is taken as [`spec_stream_step`] says: the position is
    /// raised, a relation is remembered, a report is queued, and where the
    /// server asks for a reply a standby status update is queued for some
    /// reading of the system clock, or the clock could not be read and
    /// nothing is queued.
    pub open spec fn stepped(
        &self,
        before: &Subscriber,
        event: ReadEvent,
        r: Result<Option<Message>, Error>,
    ) -> bool {
        match event {
            ReadEvent::Failed(e) => {
                &&& self.spec_last_status_update() == before.spec_last_status_update()
                &&& self.spec_last_received_lsn() == before.spec_last_received_lsn()
                &&& self.spec_cache() == before.spec_cache()
                &&& self.spec_outgoing() == before.spec_outgoing()
                &&& self.spec_notices() == before.spec_notices()
                &&& if e.kind == TransportErrorKind::WouldBlock || e.kind
                    == TransportErrorKind::TimedOut {
                    r matches Ok(None)
                } else {
                    r is Err && r->Err_0@ == ErrorView::Io(e.kind, e.message@)
                }
            },
            ReadEvent::Frame(message) => if !before.spec_streaming() {
                &&& self.spec_last_status_update() == before.spec_last_status_update()
                &&& r is Err
                &&& r->Err_0@ == ErrorView::ReplicationCopyModeNotStarted
                &&& self.spec_last_received_lsn() == before.spec_last_received_lsn()
                &&& self.spec_cache() == before.spec_cache()
                &&& self.spec_outgoing() == before.spec_outgoing()
                &&& self.spec_notices() == before.spec_notices()
            } else {
                let step = spec_stream_step(
                    before.spec_cache(),
                    before.spec_last_received_lsn(),
                    message.message_type,
                    message.data@,
                );
                &&& self.spec_last_received_lsn() == step.lsn
                &&& self.spec_notices() == match step.notice {
                    Some(text) => before.spec_notices().push(text),
                    None => before.spec_notices(),
                }
                &&& if step.reply_requested {
                    &&& self.spec_cache() == before.spec_cache()
                    &&& r matches Ok(None) ==> exists|unix_microseconds: i64|
                        is_clock_reading(unix_microseconds) && self.spec_outgoing()
                            == before.spec_outgoing() + #[trigger] spec_status_update(
                            step.lsn,
                            unix_microseconds,
                        )
                    &&& !(r matches Ok(None)) ==> {
                        &&& r is Err
                        &&& r->Err_0@ is ParseDateTime
                        &&& self.spec_outgoing() == before.spec_outgoing()
                        &&& self.spec_last_status_update() == before.spec_last_status_update()
                    }
                } else {
                    &&& self.spec_last_status_update() == before.spec_last_status_update()
                    &&& self.spec_outgoing() == before.spec_outgoing()
                    &&& cache_follows(
                        before.spec_cache(),
                        self.spec_cache(),
                        step.result,
                    )
                    &&& match r {
                        Ok(Some(m)) => step.result == Ok::<Option<MessageView>, ErrorView>(
                            Some(m@),
                        ),
                        Ok(None) => step.result == Ok::<Option<MessageView>, ErrorView>(None),
                        Err(e) => step.result == Err::<Option<MessageView>, ErrorView>(e@),
                    }
                }
            },
        }
    }

    /// Takes what one read on the transport gave, and yields the change
    /// record that it carried, if it carried one.
    ///
    /// A failed read is passed over where it only timed out or would have
    /// blocked, and is the error otherwise. A frame before the server has
    /// entered copy mode is refused. Any other frame is taken as
    /// [`spec_stream_step`] says: the position is raised, a relation is
    /// remembered, a report is queued, and where the server asks for a reply
    /// a standby status update is queued, stamped with the system clock, and
    /// the timer starts anew at its reading of that moment.
    pub fn next(&mut self, event: ReadEvent) -> (r: Result<Option<Message>, Error>)
        ensures
            final(self).spec_last_received_lsn() >= old(self).spec_last_received_lsn(),
            final(self).spec_streaming() == old(self).spec_streaming(),
            final(self).same_session(old(self)),
            final(self).stepped(old(self), event, r),
    {
        let elapsed = instant_elapsed(&self.timer);
        self.next_at(event, duration_as_nanos(&elapsed))
    }

    /// Takes what one read on the transport gave, for a reading `now` of the
    /// timer in nanoseconds since the subscriber was made: as
    /// [`Subscriber::next`], and where a standby status update is queued in
    /// reply to the server the timer starts anew at `now`.
    pub fn next_at(&mut self, event: ReadEvent, now: u128) -> (r: Result<Option<Message>, Error>)
        ensures
            final(self).spec_last_received_lsn() >= old(self).spec_last_received_lsn(),
            final(self).spec_streaming() == old(self).spec_streaming(),
            final(self).same_session(old(self)),
            final(self).stepped(old(self), event, r),
            old(self).replies_to(event) && r is Ok ==> final(self).spec_last_status_update()
                == now,
    {
        match event {
            ReadEvent::Failed(e) => {
                if is_transient(e.kind) {
                    Ok(None)
                } else {
                    Err(Error::Io(e))
                }
            },
            ReadEvent::Frame(message) => {
                if !self.streaming {
                    return Err(Error::ReplicationCopyModeNotStarted);
                }
                let step = stream_step(&self.relation_cache, self.last_received_lsn, &message);
                proof {
                    lemma_stream_step_lsn_monotonic(
                        self.relation_cache@,
                        self.last_received_lsn,
                        message.message_type,
                        message.data@,
                    );
                }
                self.last_received_lsn = step.lsn;
                match step.notice {
                    Some(text) => {
                        self.connection.report(text);
                    },
                    None => {},
                }
                if step.reply_requested {
                    let unix_microseconds = match unix_microseconds_now() {
                        Ok(t) => t,
                        Err(e) => {
                            return Err(Error::ParseDateTime(e));
                        },
                    };
                    self.report_status_at(now, unix_microseconds);
                    return Ok(None);
                }
                match step.result {
                    Ok(Some(m)) => {
                        self.remember(&m);
                        Ok(Some(m))
                    },
                    Ok(None) => Ok(None),
                    Err(e) => Err(e),
                }
            },
        }
    }
}

} // verus!
