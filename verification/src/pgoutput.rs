//! The change records of the `pgoutput` plugin: relations, rows and
//! transaction bounds, decoded from the payload of a WAL-data message.

use crate::error::Error;
use crate::error::ErrorView;
use crate::error::outcome_view;
use crate::text::copy_bytes;
use crate::text::str_from_utf8;
use crate::text::utf8_failure_of;
use crate::value::parse_binary_value;
use crate::value::parse_text_value;
use crate::value::PG_TYPE_TEXT;
use crate::value::spec_parse_binary;
use crate::value::spec_parse_text;
use crate::value::Value;
use crate::value::ValueView;
use crate::wire::read_i32;
use crate::wire::read_lsn;
use crate::wire::read_string;
use crate::wire::read_u16;
use crate::wire::read_u32;
use crate::wire::read_u8;
use crate::wire::spec_take_i32;
use crate::wire::spec_take_lsn;
use crate::wire::spec_take_string;
use crate::wire::spec_take_u16;
use crate::wire::spec_take_u32;
use crate::wire::spec_take_u8;
use crate::wire::Taken;
use std::collections::HashMap;
use vstd::prelude::*;
use vstd::utf8::*;

verus! {

broadcast use vstd::std_specs::hash::group_hash_axioms;

/// The first byte of a record that begins a transaction, `B`.
pub const RECORD_BEGIN: u8 = 0x42;

/// The first byte of a record that commits a transaction, `C`.
pub const RECORD_COMMIT: u8 = 0x43;

/// The first byte of a record that describes a relation, `R`.
pub const RECORD_RELATION: u8 = 0x52;

/// The first byte of an insert record, `I`.
pub const RECORD_INSERT: u8 = 0x49;

/// The first byte of an update record, `U`.
pub const RECORD_UPDATE: u8 = 0x55;

/// The first byte of a delete record, `D`.
pub const RECORD_DELETE: u8 = 0x44;

/// The marker before a new row, `N`.
pub const MARKER_NEW: u8 = 0x4e;

/// The marker before an old row, `O`.
pub const MARKER_OLD: u8 = 0x4f;

/// The format byte of a field in text form, `t`.
pub const FORMAT_TEXT: u8 = 0x74;

/// The format byte of a field in binary form, `b`.
pub const FORMAT_BINARY: u8 = 0x62;

/// One column of a relation.
#[derive(Debug, Clone, PartialEq, Eq)]
pub struct Column {
    /// The name of the column.
    pub name: String,
    /// The OID of the column's type.
    pub type_id: u32,
    /// The type modifier (precision, length and the like).
    pub type_modifier: i32,
    /// Attribute flags; the low bit marks a column of the replica identity.
    pub flags: u8,
}

/// The mathematical content of a [`Column`].
pub struct ColumnView {
    pub name: Seq<char>,
    pub type_id: u32,
    pub type_modifier: i32,
    pub flags: u8,
}

impl View for Column {
    type V = ColumnView;

    open spec fn view(&self) -> ColumnView {
        ColumnView {
            name: self.name@,
            type_id: self.type_id,
            type_modifier: self.type_modifier,
            flags: self.flags,
        }
    }
}

/// What is known of a relation: its names, its replica identity and its
/// columns in the order in which the server sends their values.
#[derive(Debug, Clone, PartialEq, Eq)]
pub struct RelationInfo {
    /// The schema of the relation.
    pub namespace: String,
    /// The name of the relation.
    pub name: String,
    /// The columns, in tuple order.
    pub columns: Vec<Column>,
    /// The replica identity setting, as the server sent it.
    pub replica_identity: u8,
}

/// The mathematical content of a [`RelationInfo`].
pub struct RelationInfoView {
    pub namespace: Seq<char>,
    pub name: Seq<char>,
    pub columns: Seq<ColumnView>,
    pub replica_identity: u8,
}

/// The columns by their views.
pub open spec fn columns_view(columns: Seq<Column>) -> Seq<ColumnView> {
    Seq::new(columns.len(), |i: int| columns[i]@)
}

impl View for RelationInfo {
    type V = RelationInfoView;

    open spec fn view(&self) -> RelationInfoView {
        RelationInfoView {
            namespace: self.namespace@,
            name: self.name@,
            columns: columns_view(self.columns@),
            replica_identity: self.replica_identity,
        }
    }
}

/// One change record of the logical replication stream.
#[derive(Debug, Clone, PartialEq, Eq)]
pub enum Message {
    /// A transaction begins; the position is that of its end.
    Begin(u64),
    /// The description of a relation.
    Relation {
        /// The OID of the relation.
        id: u32,
        /// The schema of the relation.
        namespace: String,
        /// The name of the relation.
        name: String,
        /// The replica identity setting.
        replica_identity: u8,
        /// The columns, in tuple order.
        columns: Vec<Column>,
    },
    /// A row was inserted.
    Insert {
        /// The relation of the row.
        relation_id: u32,
        /// The new row.
        tuple_data: Vec<Option<Value>>,
    },
    /// A row was updated.
    Update {
        /// The relation of the row.
        relation_id: u32,
        /// The row as it was, where the server sends it.
        old_tuple_data: Option<Vec<Option<Value>>>,
        /// The row as it is now.
        new_tuple_data: Vec<Option<Value>>,
    },
    /// A row was deleted.
    Delete {
        /// The relation of the row.
        relation_id: u32,
        /// The row as it was, where the server sends it.
        old_tuple_data: Option<Vec<Option<Value>>>,
    },
    /// A transaction is committed at the given position.
    Commit(u64),
    /// A record of a kind that is not decoded.
    Unknown(u8),
}

/// A row by the views of its values.
pub type TupleView = Seq<Option<ValueView>>;

/// The mathematical content of a [`Message`].
pub enum MessageView {
    Begin(u64),
    Relation {
        id: u32,
        namespace: Seq<char>,
        name: Seq<char>,
        replica_identity: u8,
        columns: Seq<ColumnView>,
    },
    Insert { relation_id: u32, tuple_data: TupleView },
    Update { relation_id: u32, old_tuple_data: Option<TupleView>, new_tuple_data: TupleView },
    Delete { relation_id: u32, old_tuple_data: Option<TupleView> },
    Commit(u64),
    Unknown(u8),
}

/// A row by the views of its values.
pub open spec fn tuple_view(tuple: Seq<Option<Value>>) -> TupleView {
    Seq::new(
        tuple.len(),
        |i: int|
            match tuple[i] {
                Some(v) => Some(v@),
                None => None,
            },
    )
}

/// An optional row by the views of its values.
pub open spec fn optional_tuple_view(tuple: Option<Vec<Option<Value>>>) -> Option<TupleView> {
    match tuple {
        Some(t) => Some(tuple_view(t@)),
        None => None,
    }
}

impl View for Message {
    type V = MessageView;

    open spec fn view(&self) -> MessageView {
        match *self {
            Message::Begin(lsn) => MessageView::Begin(lsn),
            Message::Relation { id, namespace, name, replica_identity, columns } => {
                MessageView::Relation {
                    id,
                    namespace: namespace@,
                    name: name@,
                    replica_identity,
                    columns: columns_view(columns@),
                }
            },
            Message::Insert { relation_id, tuple_data } => MessageView::Insert {
                relation_id,
                tuple_data: tuple_view(tuple_data@),
            },
            Message::Update { relation_id, old_tuple_data, new_tuple_data } => {
                MessageView::Update {
                    relation_id,
                    old_tuple_data: optional_tuple_view(old_tuple_data),
                    new_tuple_data: tuple_view(new_tuple_data@),
                }
            },
            Message::Delete { relation_id, old_tuple_data } => MessageView::Delete {
                relation_id,
                old_tuple_data: optional_tuple_view(old_tuple_data),
            },
            Message::Commit(lsn) => MessageView::Commit(lsn),
            Message::Unknown(kind) => MessageView::Unknown(kind),
        }
    }
}

/// The relations seen so far, by relation id.
pub type RelationCache = Map<u32, RelationInfo>;

/// The type OID under which column `index` of a relation is decoded: the one
/// that the cached relation gives, and `text` where the relation or the
/// column is not known.
pub open spec fn column_type(cache: RelationCache, relation_id: u32, index: int) -> u32 {
    if cache.contains_key(relation_id) && 0 <= index < cache[relation_id].columns@.len() {
        cache[relation_id].columns@[index].type_id
    } else {
        PG_TYPE_TEXT
    }
}

/// One field of a row, taken from the front of `data`: a format byte, then
/// for `t` and `b` a signed length and that many bytes, which are decoded
/// under `type_id`. A negative length, and every other format byte, gives no
/// value.
#[verifier::opaque]
pub open spec fn spec_take_field(data: Seq<u8>, type_id: u32) -> Taken<Option<ValueView>> {
    match spec_take_u8(data) {
        Err(e) => Err(e),
        Ok((format, rest)) => if format == FORMAT_TEXT || format == FORMAT_BINARY {
            match spec_take_i32(rest) {
                Err(e) => Err(e),
                Ok((len, body)) => if len < 0 {
                    Ok((None, body))
                } else if body.len() < len {
                    Err(
                        ErrorView::UnexpectedEndOfData(
                            if format == FORMAT_TEXT {
                                "column value"@
                            } else {
                                "binary column value"@
                            },
                        ),
                    )
                } else if format == FORMAT_BINARY {
                    Ok(
                        (
                            Some(spec_parse_binary(body.take(len as int), type_id, len)),
                            body.skip(len as int),
                        ),
                    )
                } else if !valid_utf8(body.take(len as int)) {
                    Err(ErrorView::Utf8(utf8_failure_of(body.take(len as int))))
                } else {
                    match spec_parse_text(decode_utf8(body.take(len as int)), type_id) {
                        Ok(v) => Ok((Some(v), body.skip(len as int))),
                        Err(e) => Err(e),
                    }
                },
            }
        } else {
            Ok((None, rest))
        },
    }
}

/// The fields `from .. count` of a row of the given relation, taken from the
/// front of `data` and appended to `done`.
pub open spec fn spec_take_fields(
    data: Seq<u8>,
    cache: RelationCache,
    relation_id: u32,
    from: int,
    count: int,
    done: TupleView,
) -> Taken<TupleView>
    decreases count - from,
{
    if from >= count {
        Ok((done, data))
    } else {
        match spec_take_field(data, column_type(cache, relation_id, from)) {
            Err(e) => Err(e),
            Ok((v, rest)) => spec_take_fields(
                rest,
                cache,
                relation_id,
                from + 1,
                count,
                done.push(v),
            ),
        }
    }
}

/// The bytes without a leading `N`.
pub open spec fn skip_new_marker(data: Seq<u8>) -> Seq<u8> {
    if data.len() > 0 && data[0] == MARKER_NEW {
        data.skip(1)
    } else {
        data
    }
}

/// One row of the given relation, taken from the front of `data`: an
/// optional `N`, the number of fields, then the fields.
pub open spec fn spec_take_tuple(data: Seq<u8>, cache: RelationCache, relation_id: u32) -> Taken<
    TupleView,
> {
    match spec_take_u16(skip_new_marker(data)) {
        Err(e) => Err(e),
        Ok((count, rest)) => spec_take_fields(
            rest,
            cache,
            relation_id,
            0,
            count as int,
            Seq::empty(),
        ),
    }
}

/// One column description, taken from the front of `data`: flags, name,
/// type OID and type modifier.
pub open spec fn spec_take_column(data: Seq<u8>) -> Taken<ColumnView> {
    match spec_take_u8(data) {
        Err(e) => Err(e),
        Ok((flags, d1)) => match spec_take_string(d1) {
            Err(e) => Err(e),
            Ok((name, d2)) => match spec_take_u32(d2) {
                Err(e) => Err(e),
                Ok((type_id, d3)) => match spec_take_i32(d3) {
                    Err(e) => Err(e),
                    Ok((type_modifier, d4)) => Ok(
                        (ColumnView { name, type_id, type_modifier, flags }, d4),
                    ),
                },
            },
        },
    }
}

/// `count` column descriptions, taken from the front of `data` and appended
/// to `done`.
pub open spec fn spec_take_columns(data: Seq<u8>, count: int, done: Seq<ColumnView>) -> Taken<
    Seq<ColumnView>,
>
    decreases count,
{
    if count <= 0 {
        Ok((done, data))
    } else {
        match spec_take_column(data) {
            Err(e) => Err(e),
            Ok((c, rest)) => spec_take_columns(rest, count - 1, done.push(c)),
        }
    }
}

/// The body of a relation record.
pub open spec fn spec_parse_relation(data: Seq<u8>) -> Result<MessageView, ErrorView> {
    match spec_take_u32(data) {
        Err(e) => Err(e),
        Ok((id, d1)) => match spec_take_string(d1) {
            Err(e) => Err(e),
            Ok((namespace, d2)) => match spec_take_string(d2) {
                Err(e) => Err(e),
                Ok((name, d3)) => match spec_take_u8(d3) {
                    Err(e) => Err(e),
                    Ok((replica_identity, d4)) => match spec_take_u16(d4) {
                        Err(e) => Err(e),
                        Ok((count, d5)) => match spec_take_columns(
                            d5,
                            count as int,
                            Seq::empty(),
                        ) {
                            Err(e) => Err(e),
                            Ok((columns, _)) => Ok(
                                MessageView::Relation {
                                    id,
                                    namespace,
                                    name,
                                    replica_identity,
                                    columns,
                                },
                            ),
                        },
                    },
                },
            },
        },
    }
}

/// The body of an insert record: the relation, an optional `N`, the row.
pub open spec fn spec_parse_insert(data: Seq<u8>, cache: RelationCache) -> Result<
    MessageView,
    ErrorView,
> {
    match spec_take_u32(data) {
        Err(e) => Err(e),
        Ok((relation_id, rest)) => match spec_take_tuple(
            skip_new_marker(rest),
            cache,
            relation_id,
        ) {
            Err(e) => Err(e),
            Ok((tuple_data, _)) => Ok(MessageView::Insert { relation_id, tuple_data }),
        },
    }
}

/// The body of an update record: the relation, one marker byte, the old row
/// where the marker is `O`, then the new row.
pub open spec fn spec_parse_update(data: Seq<u8>, cache: RelationCache) -> Result<
    MessageView,
    ErrorView,
> {
    match spec_take_u32(data) {
        Err(e) => Err(e),
        Ok((relation_id, d1)) => match spec_take_u8(d1) {
            Err(e) => Err(e),
            Ok((marker, d2)) => if marker == MARKER_OLD {
                match spec_take_tuple(d2, cache, relation_id) {
                    Err(e) => Err(e),
                    Ok((old, d3)) => match spec_take_tuple(d3, cache, relation_id) {
                        Err(e) => Err(e),
                        Ok((new_tuple_data, _)) => Ok(
                            MessageView::Update {
                                relation_id,
                                old_tuple_data: Some(old),
                                new_tuple_data,
                            },
                        ),
                    },
                }
            } else {
                match spec_take_tuple(d2, cache, relation_id) {
                    Err(e) => Err(e),
                    Ok((new_tuple_data, _)) => Ok(
                        MessageView::Update { relation_id, old_tuple_data: None, new_tuple_data },
                    ),
                }
            },
        },
    }
}

/// The body of a delete record: the relation, one marker byte, and the old
/// row where the marker is `O`.
pub open spec fn spec_parse_delete(data: Seq<u8>, cache: RelationCache) -> Result<
    MessageView,
    ErrorView,
> {
    match spec_take_u32(data) {
        Err(e) => Err(e),
        Ok((relation_id, d1)) => match spec_take_u8(d1) {
            Err(e) => Err(e),
            Ok((marker, d2)) => if marker == MARKER_OLD {
                match spec_take_tuple(d2, cache, relation_id) {
                    Err(e) => Err(e),
                    Ok((old, _)) => Ok(
                        MessageView::Delete { relation_id, old_tuple_data: Some(old) },
                    ),
                }
            } else {
                Ok(MessageView::Delete { relation_id, old_tuple_data: None })
            },
        },
    }
}

/// What [`parse_wal_data`] makes of a `pgoutput` payload: the first byte
/// tells the kind of record, the rest is its body.
pub open spec fn spec_parse_wal_data(data: Seq<u8>, cache: RelationCache) -> Result<
    MessageView,
    ErrorView,
> {
    if data.len() == 0 {
        Err(ErrorView::EmptyWalData)
    } else {
        let kind = data[0];
        let body = data.skip(1);
        if kind == RECORD_BEGIN {
            match spec_take_lsn(body) {
                Err(e) => Err(e),
                Ok((lsn, _)) => Ok(MessageView::Begin(lsn)),
            }
        } else if kind == RECORD_COMMIT {
            match spec_take_lsn(body) {
                Err(e) => Err(e),
                Ok((lsn, _)) => Ok(MessageView::Commit(lsn)),
            }
        } else if kind == RECORD_INSERT {
            spec_parse_insert(body, cache)
        } else if kind == RECORD_UPDATE {
            spec_parse_update(body, cache)
        } else if kind == RECORD_DELETE {
            spec_parse_delete(body, cache)
        } else if kind == RECORD_RELATION {
            spec_parse_relation(body)
        } else {
            Ok(MessageView::Unknown(kind))
        }
    }
}

/// Taking fields never changes what was taken before, and takes exactly as
/// many fields as were asked for.
pub proof fn lemma_take_fields_len(
    data: Seq<u8>,
    cache: RelationCache,
    relation_id: u32,
    from: int,
    count: int,
    done: TupleView,
)
    requires
        from <= count,
    ensures
        spec_take_fields(data, cache, relation_id, from, count, done) matches Ok((tuple, _))
            ==> tuple.len() == done.len() + count - from,
    decreases count - from,
{
    if from < count {
        match spec_take_field(data, column_type(cache, relation_id, from)) {
            Err(_) => {},
            Ok((v, rest)) => {
                lemma_take_fields_len(rest, cache, relation_id, from + 1, count, done.push(v));
            },
        }
    }
}

/// A decoded row has as many values as its field count announces.
pub proof fn lemma_tuple_len(data: Seq<u8>, cache: RelationCache, relation_id: u32)
    ensures
        spec_take_tuple(data, cache, relation_id) matches Ok((tuple, _)) ==> tuple.len()
            == spec_take_u16(skip_new_marker(data))->Ok_0.0,
{
    match spec_take_u16(skip_new_marker(data)) {
        Err(_) => {},
        Ok((count, rest)) => {
            lemma_take_fields_len(rest, cache, relation_id, 0, count as int, Seq::empty());
        },
    }
}

/// The number of fields that a row announces, where it announces one.
pub open spec fn announced_fields(data: Seq<u8>) -> Option<int> {
    match spec_take_u16(skip_new_marker(data)) {
        Ok((count, _)) => Some(count as int),
        Err(_) => None,
    }
}

/// A row that announces as many fields as its relation has columns in the
/// cache is decoded to exactly that many values.
pub proof fn lemma_tuple_len_is_column_count(
    data: Seq<u8>,
    cache: RelationCache,
    relation_id: u32,
)
    requires
        cache.contains_key(relation_id),
        announced_fields(data) == Some(cache[relation_id].columns@.len() as int),
    ensures
        spec_take_tuple(data, cache, relation_id) matches Ok((tuple, _)) ==> tuple.len()
            == cache[relation_id].columns@.len(),
{
    lemma_tuple_len(data, cache, relation_id);
}

/// A copy of the column.
pub fn copy_column(column: &Column) -> (r: Column)
    ensures
        r@ == column@,
{
    Column {
        name: column.name.clone(),
        type_id: column.type_id,
        type_modifier: column.type_modifier,
        flags: column.flags,
    }
}

/// A copy of the columns.
pub fn copy_columns(columns: &Vec<Column>) -> (r: Vec<Column>)
    ensures
        columns_view(r@) == columns_view(columns@),
{
    let mut copy: Vec<Column> = Vec::new();
    let mut i: usize = 0;
    while i < columns.len()
        invariant
            i <= columns@.len(),
            copy@.len() == i,
            forall|j: int| 0 <= j < i ==> copy@[j]@ == columns@[j]@,
        decreases columns@.len() - i,
    {
        copy.push(copy_column(&columns[i]));
        i = i + 1;
    }
    assert(columns_view(copy@) =~= columns_view(columns@));
    copy
}

/// The type OID under which column `index` of the relation is decoded.
pub fn column_type_of(cache: &HashMap<u32, RelationInfo>, relation_id: u32, index: usize) -> (r:
    u32)
    ensures
        r == column_type(cache@, relation_id, index as int),
{
    match cache.get(&relation_id) {
        Some(relation) => {
            if index < relation.columns.len() {
                relation.columns[index].type_id
            } else {
                PG_TYPE_TEXT
            }
        },
        None => PG_TYPE_TEXT,
    }
}

/// Takes one field of a row from the front of `data` and decodes it under
/// `type_id`.
pub fn read_field(data: &mut &[u8], type_id: u32) -> (r: Result<Option<Value>, Error>)
    ensures
        match spec_take_field(old(data)@, type_id) {
            Ok((v, rest)) => r is Ok && (match r->Ok_0 {
                Some(x) => Some(x@),
                None => None,
            }) == v && final(data)@ == rest,
            Err(e) => r is Err && r->Err_0@ == e,
        },
{
    reveal(spec_take_field);
    let format_byte = read_u8(data)?;
    if format_byte == FORMAT_TEXT {
        let len = read_i32(data)?;
        if len < 0 {
            Ok(None)
        } else {
            if data.len() < len as usize {
                return Err(Error::UnexpectedEndOfData("column value"));
            }
            let text_slice = &data[0..len as usize];
            assert(text_slice@ =~= data@.take(len as int));
            *data = &data[len as usize..data.len()];
            let text_str = match str_from_utf8(text_slice) {
                Ok(s) => s,
                Err(e) => {
                    return Err(Error::Utf8(e));
                },
            };
            proof {
                encode_utf8_decode_utf8(text_str@);
            }
            let value = parse_text_value(text_str, type_id)?;
            Ok(Some(value))
        }
    } else if format_byte == FORMAT_BINARY {
        let len = read_i32(data)?;
        if len < 0 {
            Ok(None)
        } else {
            if data.len() < len as usize {
                return Err(Error::UnexpectedEndOfData("binary column value"));
            }
            let binary_data = &data[0..len as usize];
            assert(binary_data@ =~= data@.take(len as int));
            let value = match parse_binary_value(binary_data, type_id, len) {
                Ok(v) => v,
                Err(_) => Value::Binary(copy_bytes(binary_data)),
            };
            *data = &data[len as usize..data.len()];
            Ok(Some(value))
        }
    } else {
        Ok(None)
    }
}

/// Takes one row of the given relation from the front of `data`. The number
/// of fields is the one on the wire; each field is decoded under the type
/// that the cached relation gives its column.
pub fn read_tuple_data(
    cache: &HashMap<u32, RelationInfo>,
    data: &mut &[u8],
    relation_id: u32,
) -> (r: Result<Vec<Option<Value>>, Error>)
    ensures
        match spec_take_tuple(old(data)@, cache@, relation_id) {
            Ok((tuple, rest)) => r is Ok && tuple_view(r->Ok_0@) == tuple && final(data)@ == rest,
            Err(e) => r is Err && r->Err_0@ == e,
        },
{
    if data.len() > 0 && data[0] == MARKER_NEW {
        *data = &data[1..data.len()];
    }
    assert(data@ =~= skip_new_marker(old(data)@));
    let column_count = read_u16(data)?;
    let mut tuple_data: Vec<Option<Value>> = Vec::new();
    let ghost start = data@;
    let mut i: u16 = 0;
    assert(tuple_view(tuple_data@) =~= Seq::empty());
    while i < column_count
        invariant
            i <= column_count,
            tuple_data@.len() == i,
            spec_take_tuple(old(data)@, cache@, relation_id) == spec_take_fields(
                start,
                cache@,
                relation_id,
                0,
                column_count as int,
                Seq::empty(),
            ),
            spec_take_fields(start, cache@, relation_id, 0, column_count as int, Seq::empty())
                == spec_take_fields(
                data@,
                cache@,
                relation_id,
                i as int,
                column_count as int,
                tuple_view(tuple_data@),
            ),
        decreases column_count - i,
    {
        let type_id = column_type_of(cache, relation_id, i as usize);
        let ghost before = tuple_view(tuple_data@);
        let field = read_field(data, type_id)?;
        tuple_data.push(field);
        assert(tuple_view(tuple_data@) =~= before.push(
            match field {
                Some(x) => Some(x@),
                None => None,
            },
        ));
        i = i + 1;
    }
    Ok(tuple_data)
}

/// Takes one column description from the front of `data`.
pub fn read_column(data: &mut &[u8]) -> (r: Result<Column, Error>)
    ensures
        match spec_take_column(old(data)@) {
            Ok((c, rest)) => r is Ok && r->Ok_0@ == c && final(data)@ == rest,
            Err(e) => r is Err && r->Err_0@ == e,
        },
{
    let flags = read_u8(data)?;
    let name = read_string(data)?;
    let type_id = read_u32(data)?;
    let type_modifier = read_i32(data)?;
    Ok(Column { name, type_id, type_modifier, flags })
}

/// Decodes the body of a relation record.
pub fn parse_relation(data: &mut &[u8]) -> (r: Result<Message, Error>)
    ensures
        outcome_view(r) == spec_parse_relation(old(data)@),
{
    let id = read_u32(data)?;
    let namespace = read_string(data)?;
    let name = read_string(data)?;
    let replica_identity = read_u8(data)?;
    let column_count = read_u16(data)?;
    let mut columns: Vec<Column> = Vec::new();
    let ghost start = data@;
    let mut i: u16 = 0;
    assert(columns_view(columns@) =~= Seq::empty());
    while i < column_count
        invariant
            i <= column_count,
            columns@.len() == i,
            spec_parse_relation(old(data)@) == (match spec_take_columns(
                start,
                column_count as int,
                Seq::empty(),
            ) {
                Err(e) => Err::<MessageView, ErrorView>(e),
                Ok((columns, _)) => Ok(
                    MessageView::Relation {
                        id,
                        namespace: namespace@,
                        name: name@,
                        replica_identity,
                        columns,
                    },
                ),
            }),
            spec_take_columns(start, column_count as int, Seq::empty()) == spec_take_columns(
                data@,
                column_count - i,
                columns_view(columns@),
            ),
        decreases column_count - i,
    {
        let ghost before = columns_view(columns@);
        let column = read_column(data)?;
        let ghost cv = column@;
        columns.push(column);
        assert(columns_view(columns@) =~= before.push(cv));
        i = i + 1;
    }
    Ok(Message::Relation { id, namespace, name, replica_identity, columns })
}

/// Decodes one `pgoutput` payload. Fields of rows are decoded under the
/// column types of the cached relations.
pub fn parse_wal_data(cache: &HashMap<u32, RelationInfo>, data: &[u8]) -> (r: Result<
    Message,
    Error,
>)
    ensures
        outcome_view(r) == spec_parse_wal_data(data@, cache@),
{
    if data.len() == 0 {
        return Err(Error::EmptyWalData);
    }
    let message_type = data[0];
    let mut rest: &[u8] = &data[1..data.len()];
    assert(rest@ =~= data@.skip(1));
    if message_type == RECORD_BEGIN {
        let lsn = read_lsn(&mut rest)?;
        Ok(Message::Begin(lsn))
    } else if message_type == RECORD_COMMIT {
        let lsn = read_lsn(&mut rest)?;
        Ok(Message::Commit(lsn))
    } else if message_type == RECORD_INSERT {
        let relation_id = read_u32(&mut rest)?;
        let ghost after_id = rest@;
        if rest.len() > 0 && rest[0] == MARKER_NEW {
            rest = &rest[1..rest.len()];
        }
        assert(rest@ =~= skip_new_marker(after_id));
        let tuple_data = read_tuple_data(cache, &mut rest, relation_id)?;
        Ok(Message::Insert { relation_id, tuple_data })
    } else if message_type == RECORD_UPDATE {
        let relation_id = read_u32(&mut rest)?;
        let marker = read_u8(&mut rest)?;
        let old_tuple_data = if marker == MARKER_OLD {
            Some(read_tuple_data(cache, &mut rest, relation_id)?)
        } else {
            None
        };
        let new_tuple_data = read_tuple_data(cache, &mut rest, relation_id)?;
        Ok(Message::Update { relation_id, old_tuple_data, new_tuple_data })
    } else if message_type == RECORD_DELETE {
        let relation_id = read_u32(&mut rest)?;
        let marker = read_u8(&mut rest)?;
        let old_tuple_data = if marker == MARKER_OLD {
            Some(read_tuple_data(cache, &mut rest, relation_id)?)
        } else {
            None
        };
        Ok(Message::Delete { relation_id, old_tuple_data })
    } else if message_type == RECORD_RELATION {
        parse_relation(&mut rest)
    } else {
        Ok(Message::Unknown(message_type))
    }
}

} // verus!
