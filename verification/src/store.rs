//! The embedded-database backend: schema bootstrap, connection
//! configuration, row marshaling, and the capability interface
//! (save/load/search/count/update/delete/session allocation), implemented
//! over the query lowering of [`crate::sqlgen`].
//!
//! Every call into the database engine stands behind a small trusted
//! wrapper; what the store does with whatever comes back is verified.

use vstd::prelude::*;

use crate::StorageError;
use crate::item::{Anything, HistoryItem, HistoryItemExtraInfo, HistoryItemId, HistorySessionId};
use crate::query::{SearchDirection, SearchQuery, id_before, matches_query, ordered_by_id, query_matches};
use crate::sqlgen::{NamedParam, SqlValue, SqlValueModel, construct_query, params_model};

verus! {

#[verifier::external_type_specification]
#[verifier::external_body]
/// Declares rusqlite's connection handle so it can stand in a field.
pub struct ExConnection(rusqlite::Connection);

#[verifier::external_type_specification]
#[verifier::external_body]
/// Declares rusqlite's error type so wrappers can return it.
pub struct ExSqliteError(rusqlite::Error);

#[verifier::external_type_specification]
#[verifier::external_body]
/// Declares rusqlite's row handle so the row reader can take it.
pub struct ExRow<'a>(rusqlite::Row<'a>);

/// One fetched row of the history table, as plain values: exactly the
/// column set of the schema.
pub struct RawRow {
    /// The `id` column.
    pub id: i64,
    /// The `command_line` column.
    pub command_line: String,
    /// The `start_timestamp` column.
    pub start_timestamp: Option<i64>,
    /// The `session_id` column.
    pub session_id: Option<i64>,
    /// The `hostname` column.
    pub hostname: Option<String>,
    /// The `cwd` column.
    pub cwd: Option<String>,
    /// The `duration_ms` column.
    pub duration_ms: Option<i64>,
    /// The `exit_status` column.
    pub exit_status: Option<i64>,
    /// The `more_info` column.
    pub more_info: Option<String>,
}

/// Relies on rusqlite::Connection::open_in_memory: opens a fresh, empty
/// in-memory database.
#[verifier::external_body]
fn db_open_in_memory() -> (r: Result<rusqlite::Connection, rusqlite::Error>) {
    rusqlite::Connection::open_in_memory()
}

/// Relies on rusqlite::Connection::open: opens or creates the database
/// file at the given path.
#[verifier::external_body]
fn db_open_file(path: &str) -> (r: Result<rusqlite::Connection, rusqlite::Error>) {
    rusqlite::Connection::open(std::path::Path::new(path))
}

/// Relies on rusqlite::Connection::execute_batch: runs the statements of
/// the batch in order, stopping at the first failure.
#[verifier::external_body]
fn db_execute_batch(db: &rusqlite::Connection, sql: &str) -> (r: Result<(), rusqlite::Error>) {
    db.execute_batch(sql)
}

/// Relies on rusqlite::Connection::execute: runs one statement with the
/// given named parameters and reports how many rows it changed.
#[verifier::external_body]
fn db_execute(db: &rusqlite::Connection, sql: &str, params: &Vec<NamedParam>) -> (r: Result<
    usize,
    rusqlite::Error,
>) {
    let ps: Vec<(&str, rusqlite::types::Value)> = params.iter().map(
        |p: &NamedParam| (p.name, match &p.value {
            SqlValue::Int(i) => rusqlite::types::Value::Integer(*i),
            SqlValue::Text(s) => rusqlite::types::Value::Text(s.clone()),
            SqlValue::Null => rusqlite::types::Value::Null,
        }),
    ).collect();
    db.execute(sql, &ps[..])
}

/// Relies on rusqlite::Connection::query_row: runs the query with the
/// given named parameters and hands back the first column of its first
/// row; fails with no row.
#[verifier::external_body]
fn db_query_i64(db: &rusqlite::Connection, sql: &str, params: &Vec<NamedParam>) -> (r: Result<
    i64,
    rusqlite::Error,
>) {
    let ps: Vec<(&str, rusqlite::types::Value)> = params.iter().map(
        |p: &NamedParam| (p.name, match &p.value {
            SqlValue::Int(i) => rusqlite::types::Value::Integer(*i),
            SqlValue::Text(s) => rusqlite::types::Value::Text(s.clone()),
            SqlValue::Null => rusqlite::types::Value::Null,
        }),
    ).collect();
    db.query_row(sql, &ps[..], |row| row.get(0))
}

/// Relies on rusqlite::Row::get by column name: reads every column of one
/// history row into plain values.
#[verifier::external_body]
fn read_row<'a>(row: &rusqlite::Row<'a>) -> (r: Result<RawRow, rusqlite::Error>) {
    Ok(RawRow {
        id: row.get("id")?,
        command_line: row.get("command_line")?,
        start_timestamp: row.get("start_timestamp")?,
        session_id: row.get("session_id")?,
        hostname: row.get("hostname")?,
        cwd: row.get("cwd")?,
        duration_ms: row.get("duration_ms")?,
        exit_status: row.get("exit_status")?,
        more_info: row.get("more_info")?,
    })
}

/// Relies on rusqlite::Connection::query_row together with
/// rusqlite::OptionalExtension::optional: the first matching row read by
/// [`read_row`], or `None` where the query matches nothing.
#[verifier::external_body]
fn db_query_opt_row(db: &rusqlite::Connection, sql: &str, params: &Vec<NamedParam>) -> (r: Result<
    Option<RawRow>,
    rusqlite::Error,
>) {
    let ps: Vec<(&str, rusqlite::types::Value)> = params.iter().map(
        |p: &NamedParam| (p.name, match &p.value {
            SqlValue::Int(i) => rusqlite::types::Value::Integer(*i),
            SqlValue::Text(s) => rusqlite::types::Value::Text(s.clone()),
            SqlValue::Null => rusqlite::types::Value::Null,
        }),
    ).collect();
    rusqlite::OptionalExtension::optional(db.query_row(sql, &ps[..], |row| read_row(row)))
}

/// Relies on rusqlite::Statement::query_map: every row the query matches,
/// in statement order, each read by [`read_row`].
#[verifier::external_body]
fn db_query_rows(db: &rusqlite::Connection, sql: &str, params: &Vec<NamedParam>) -> (r: Result<
    Vec<RawRow>,
    rusqlite::Error,
>) {
    let ps: Vec<(&str, rusqlite::types::Value)> = params.iter().map(
        |p: &NamedParam| (p.name, match &p.value {
            SqlValue::Int(i) => rusqlite::types::Value::Integer(*i),
            SqlValue::Text(s) => rusqlite::types::Value::Text(s.clone()),
            SqlValue::Null => rusqlite::types::Value::Null,
        }),
    ).collect();
    let mut stmt = db.prepare(sql)?;
    let mapped = stmt.query_map(&ps[..], |row| read_row(row))?;
    mapped.collect()
}

/// Relies on rusqlite::Connection::pragma_update: sets one pragma of the
/// connection to the given value.
#[verifier::external_body]
fn db_pragma_update(db: &rusqlite::Connection, name: &str, value: &str) -> (r: Result<
    (),
    rusqlite::Error,
>) {
    db.pragma_update(None, name, value)
}

/// Relies on the Debug formatting of rusqlite::Error to describe a backend
/// failure as text.
#[verifier::external_body]
fn db_error_text(e: &rusqlite::Error) -> (r: String) {
    format!("{e:?}")
}

/// Maps a database-engine failure to the library's backend error kind.
fn backend_err(e: rusqlite::Error) -> (r: StorageError)
    ensures
        r is BackendError,
{
    StorageError::BackendError(db_error_text(&e))
}

/// What the save statement binds for an item, in column order: the row the
/// database will store, with `:id` null for a not-yet-persisted item.
pub open spec fn item_params_model(item: HistoryItem<Anything>) -> Seq<
    (Seq<char>, SqlValueModel),
> {
    seq![
        (
            ":id"@,
            match item.id {
                Some(i) => SqlValueModel::Int(i@),
                None => SqlValueModel::Null,
            },
        ),
        (
            ":start_timestamp"@,
            match item.start_timestamp {
                Some(t) => SqlValueModel::Int(t as int),
                None => SqlValueModel::Null,
            },
        ),
        (":command_line"@, SqlValueModel::Text(item.command_line@)),
        (
            ":session_id"@,
            match item.session_id {
                Some(s) => SqlValueModel::Int(s@),
                None => SqlValueModel::Null,
            },
        ),
        (
            ":hostname"@,
            match item.hostname {
                Some(h) => SqlValueModel::Text(h@),
                None => SqlValueModel::Null,
            },
        ),
        (
            ":cwd"@,
            match item.cwd {
                Some(c) => SqlValueModel::Text(c@),
                None => SqlValueModel::Null,
            },
        ),
        (
            ":duration_ms"@,
            match item.duration_ms {
                Some(d) => SqlValueModel::Int(d as i64 as int),
                None => SqlValueModel::Null,
            },
        ),
        (
            ":exit_status"@,
            match item.exit_status {
                Some(x) => SqlValueModel::Int(x as int),
                None => SqlValueModel::Null,
            },
        ),
        (
            ":more_info"@,
            match item.more_info {
                Some(_) => SqlValueModel::Text("null"@),
                None => SqlValueModel::Null,
            },
        ),
    ]
}

/// Builds the named parameters of the save statement for an item: exactly
/// [`item_params_model`].
#[verifier::rlimit(60)]
pub fn item_params(item: &HistoryItem<Anything>) -> (r: Vec<NamedParam>)
    ensures
        params_model(r@) == item_params_model(*item),
{
    let mut params: Vec<NamedParam> = Vec::new();
    let id_value = match item.id {
        Some(i) => SqlValue::Int(i.raw()),
        None => SqlValue::Null,
    };
    params.push(NamedParam { name: ":id", value: id_value });
    let ts_value = match item.start_timestamp {
        Some(t) => SqlValue::Int(t),
        None => SqlValue::Null,
    };
    params.push(NamedParam { name: ":start_timestamp", value: ts_value });
    params.push(
        NamedParam { name: ":command_line", value: SqlValue::Text(item.command_line.clone()) },
    );
    let session_value = match item.session_id {
        Some(s) => SqlValue::Int(s.raw()),
        None => SqlValue::Null,
    };
    params.push(NamedParam { name: ":session_id", value: session_value });
    let hostname_value = match &item.hostname {
        Some(h) => SqlValue::Text(h.clone()),
        None => SqlValue::Null,
    };
    params.push(NamedParam { name: ":hostname", value: hostname_value });
    let cwd_value = match &item.cwd {
        Some(c) => SqlValue::Text(c.clone()),
        None => SqlValue::Null,
    };
    params.push(NamedParam { name: ":cwd", value: cwd_value });
    let duration_value = match item.duration_ms {
        Some(d) => SqlValue::Int(#[verifier::truncate] (d as i64)),
        None => SqlValue::Null,
    };
    params.push(NamedParam { name: ":duration_ms", value: duration_value });
    let exit_value = match item.exit_status {
        Some(x) => SqlValue::Int(x),
        None => SqlValue::Null,
    };
    params.push(NamedParam { name: ":exit_status", value: exit_value });
    let info_value = match &item.more_info {
        Some(mi) => SqlValue::Text(mi.encode_text()),
        None => SqlValue::Null,
    };
    params.push(NamedParam { name: ":more_info", value: info_value });
    proof {
        assert(params_model(params@) =~= item_params_model(*item));
    }
    params
}

/// When a fetched row decodes to exactly this item: the identity comes
/// from the `id` column, instants and durations are taken as plain
/// milliseconds, and a present payload text decodes to the default
/// payload, whatever it holds.
pub open spec fn decodes_to(row: RawRow, it: HistoryItem<Anything>) -> bool {
    &&& it.id matches Some(i) && i@ == row.id as int
    &&& it.start_timestamp == row.start_timestamp
    &&& it.command_line@ == row.command_line@
    &&& match row.session_id {
        Some(s) => it.session_id matches Some(sid) && sid@ == s as int,
        None => it.session_id is None,
    }
    &&& match row.hostname {
        Some(h) => it.hostname matches Some(ih) && ih@ == h@,
        None => it.hostname is None,
    }
    &&& match row.cwd {
        Some(c) => it.cwd matches Some(ic) && ic@ == c@,
        None => it.cwd is None,
    }
    &&& it.duration_ms == match row.duration_ms {
        Some(d) => Some(d as u64),
        None => None::<u64>,
    }
    &&& it.exit_status == row.exit_status
    &&& it.more_info == match row.more_info {
        Some(_) => Some(Anything),
        None => None::<Anything>,
    }
}

/// Marshals one fetched row back into the record model: exactly
/// [`decodes_to`]. Decoding the default payload never fails; it accepts
/// and discards any stored text.
pub fn item_of_row(row: &RawRow) -> (r: HistoryItem<Anything>)
    ensures
        decodes_to(*row, r),
{
    let session_id = match row.session_id {
        Some(s) => Some(HistorySessionId::new(s)),
        None => None,
    };
    let hostname = match &row.hostname {
        Some(h) => Some(h.clone()),
        None => None,
    };
    let cwd = match &row.cwd {
        Some(c) => Some(c.clone()),
        None => None,
    };
    let duration_ms = match row.duration_ms {
        Some(d) => Some(#[verifier::truncate] (d as u64)),
        None => None,
    };
    let more_info = match &row.more_info {
        Some(t) => match Anything::decode_text(t.as_str()) {
            Some(v) => Some(v),
            None => None,
        },
        None => None,
    };
    HistoryItem {
        id: Some(HistoryItemId::new(row.id)),
        start_timestamp: row.start_timestamp,
        command_line: row.command_line.clone(),
        session_id,
        hostname,
        cwd,
        duration_ms,
        exit_status: row.exit_status,
        more_info,
    }
}

/// What the database stores for a saved item under identity `id`, column
/// by column, as the save statement binds it.
pub open spec fn row_encodes(item: HistoryItem<Anything>, id: int, row: RawRow) -> bool {
    &&& row.id as int == id
    &&& row.command_line@ == item.command_line@
    &&& row.start_timestamp == item.start_timestamp
    &&& match item.session_id {
        Some(s) => row.session_id matches Some(x) && x as int == s@,
        None => row.session_id is None,
    }
    &&& match item.hostname {
        Some(h) => row.hostname matches Some(x) && x@ == h@,
        None => row.hostname is None,
    }
    &&& match item.cwd {
        Some(c) => row.cwd matches Some(x) && x@ == c@,
        None => row.cwd is None,
    }
    &&& row.duration_ms == match item.duration_ms {
        Some(d) => Some(d as i64),
        None => None::<i64>,
    }
    &&& row.exit_status == item.exit_status
    &&& (row.more_info is Some <==> item.more_info is Some)
}

/// Round-trip: a row that stores what `save` binds for an item, read back
/// through the row marshaling, yields the item unchanged in every field
/// except that its identity is now the assigned one.
pub proof fn lemma_save_load_round_trip(
    item: HistoryItem<Anything>,
    id: i64,
    row: RawRow,
    loaded: HistoryItem<Anything>,
)
    requires
        row_encodes(item, id as int, row),
        decodes_to(row, loaded),
    ensures
        loaded.id matches Some(i) && i@ == id as int,
        loaded.start_timestamp == item.start_timestamp,
        loaded.command_line@ == item.command_line@,
        loaded.session_id == item.session_id,
        match item.hostname {
            Some(h) => loaded.hostname matches Some(x) && x@ == h@,
            None => loaded.hostname is None,
        },
        match item.cwd {
            Some(c) => loaded.cwd matches Some(x) && x@ == c@,
            None => loaded.cwd is None,
        },
        loaded.duration_ms == item.duration_ms,
        loaded.exit_status == item.exit_status,
        loaded.more_info == item.more_info,
{
    if item.session_id is Some {
        crate::item::lemma_session_id_view_injective(
            loaded.session_id->0,
            item.session_id->0,
        );
    }
    if item.duration_ms is Some {
        let d = item.duration_ms->0;
        assert(((d as i64) as u64) == d) by (bit_vector);
    }
}

/// Maps a failure to open the backing store to the library's I/O error
/// kind.
fn io_err(e: rusqlite::Error) -> (r: StorageError)
    ensures
        r is IoError,
{
    StorageError::IoError(db_error_text(&e))
}

/// The outcome of a count for the value the engine's aggregate reports:
/// a count is handed through exactly when it is nonnegative, and a
/// negative one is a backend failure.
pub fn count_outcome(c: i64) -> (r: Result<i64, StorageError>)
    ensures
        c >= 0 <==> r == Ok::<i64, StorageError>(c),
        c < 0 <==> (r matches Err(e) && e is BackendError),
{
    if c < 0 {
        Err(StorageError::BackendError("the engine returned a negative count".to_owned()))
    } else {
        Ok(c)
    }
}

/// The outcome of a load for the requested identity and the engine's
/// answer: no row is exactly `NotFound`, a row under the requested
/// identity is exactly its decoding, and a row under another identity is
/// a backend failure.
pub fn load_outcome(id: HistoryItemId, fetched: Option<RawRow>) -> (r: Result<
    HistoryItem<Anything>,
    StorageError,
>)
    ensures
        fetched is None <==> r == Err::<HistoryItem<Anything>, StorageError>(
            StorageError::NotFound,
        ),
        match fetched {
            Some(row) => {
                &&& row.id as int == id@ ==> (r matches Ok(it) && decodes_to(row, it))
                &&& row.id as int != id@ ==> (r matches Err(e) && e is BackendError)
            },
            None => true,
        },
{
    match fetched {
        Some(row) => {
            if row.id != id.raw() {
                return Err(
                    StorageError::BackendError(
                        "the engine returned a row under another identity".to_owned(),
                    ),
                );
            }
            Ok(item_of_row(&row))
        },
        None => Err(StorageError::NotFound),
    }
}

/// The outcome of a session allocation for the tracked maximum and the
/// value the engine's aggregate reports: a value above the maximum is
/// taken as is; one at or below it is bumped past the maximum instead,
/// unless the maximum is exhausted.
pub fn session_outcome(prev_max: i64, engine_value: i64) -> (r: Result<
    HistorySessionId,
    StorageError,
>)
    ensures
        engine_value > prev_max ==> (r matches Ok(s) && s@ == engine_value as int),
        engine_value <= prev_max && prev_max < i64::MAX ==> (r matches Ok(s) && s@ == prev_max
            + 1),
        engine_value <= prev_max && prev_max == i64::MAX ==> (r matches Err(e)
            && e is BackendError),
        r matches Ok(s) ==> s@ > prev_max as int,
{
    if engine_value > prev_max {
        Ok(HistorySessionId::new(engine_value))
    } else if prev_max == i64::MAX {
        Err(StorageError::BackendError("session identifiers are exhausted".to_owned()))
    } else {
        Ok(HistorySessionId::new(prev_max + 1))
    }
}

/// Whether one fetched row comes before another in a scan of the given
/// direction, by their identity columns.
pub open spec fn row_before(d: SearchDirection, x: RawRow, y: RawRow) -> bool {
    if d is Forward {
        x.id < y.id
    } else {
        x.id > y.id
    }
}

/// Whether fetched rows come strictly ordered by identity in scan
/// direction.
pub open spec fn rows_ordered(d: SearchDirection, rows: Seq<RawRow>) -> bool {
    forall|a: int, b: int|
        0 <= a < b < rows.len() ==> row_before(d, #[trigger] rows[a], #[trigger] rows[b])
}

/// Whether the decoding of a fetched row satisfies the query. The
/// decoding is unique up to the views the match depends on, so this is a
/// predicate of the row alone.
pub open spec fn row_matches(q: SearchQuery, row: RawRow) -> bool {
    forall|it: HistoryItem<Anything>| #[trigger] decodes_to(row, it) ==> query_matches(q, it)
}

/// Whether an engine answer is admissible for a query: every row's
/// decoding satisfies the query and the rows come in scan order.
pub open spec fn rows_admissible(q: SearchQuery, rows: Seq<RawRow>) -> bool {
    &&& forall|k: int| 0 <= k < rows.len() ==> row_matches(q, #[trigger] rows[k])
    &&& rows_ordered(q.direction, rows)
}

/// How many items a search hands back out of `n` fetched rows: all of
/// them, unless a nonnegative limit cuts earlier.
pub open spec fn limited_len(q: SearchQuery, n: int) -> int {
    match q.limit {
        Some(l) => if 0 <= l < n {
            l as int
        } else {
            n
        },
        None => n,
    }
}

/// All decodings of one row agree on whether they match a query: the
/// match reads only what the row pins.
proof fn lemma_decodings_match_alike(
    q: SearchQuery,
    row: RawRow,
    a: HistoryItem<Anything>,
    b: HistoryItem<Anything>,
)
    requires
        decodes_to(row, a),
        decodes_to(row, b),
    ensures
        query_matches(q, a) == query_matches(q, b),
{
}

/// Validates and decodes the rows the engine handed back for a query:
/// the result is `Ok` exactly when every row's decoding satisfies the
/// query and the rows come in scan order, and is then their decoding
/// truncated to the limit; any other answer is a backend failure.
#[verifier::rlimit(100)]
pub fn search_outcome(query: &SearchQuery, rows: &Vec<RawRow>) -> (r: Result<
    Vec<HistoryItem<Anything>>,
    StorageError,
>)
    ensures
        r is Ok <==> rows_admissible(*query, rows@),
        r matches Ok(v) ==> {
            &&& v@.len() == limited_len(*query, rows@.len() as int)
            &&& forall|k: int| 0 <= k < v@.len() ==> decodes_to(rows@[k], #[trigger] v@[k])
        },
        r matches Ok(v) ==> forall|k: int|
            0 <= k < v@.len() ==> query_matches(*query, #[trigger] v@[k]),
        r matches Ok(v) ==> forall|k: int| 0 <= k < v@.len() ==> (#[trigger] v@[k]).id is Some,
        r matches Ok(v) ==> ordered_by_id(query.direction, v@),
        r matches Err(e) ==> e is BackendError,
{
    let forward = match query.direction {
        SearchDirection::Forward => true,
        SearchDirection::Backward => false,
    };
    let mut out: Vec<HistoryItem<Anything>> = Vec::new();
    let mut i: usize = 0;
    let mut last_raw: i64 = 0;
    while i < rows.len()
        invariant
            i <= rows.len(),
            out@.len() == i,
            forward == (query.direction is Forward),
            forall|k: int| 0 <= k < i ==> decodes_to(rows@[k], #[trigger] out@[k]),
            forall|k: int| 0 <= k < i ==> row_matches(*query, #[trigger] rows@[k]),
            i > 0 ==> last_raw == rows@[i - 1].id,
            forall|a: int, b: int|
                0 <= a < b < i ==> row_before(query.direction, #[trigger] rows@[a], #[trigger] rows@[b]),
        decreases rows.len() - i,
    {
        let cur_raw = rows[i].id;
        if i > 0 {
            let in_order = if forward {
                cur_raw > last_raw
            } else {
                cur_raw < last_raw
            };
            if !in_order {
                proof {
                    assert(!row_before(query.direction, rows@[i - 1], rows@[i as int]));
                    assert(!rows_ordered(query.direction, rows@));
                }
                return Err(
                    StorageError::BackendError(
                        "search rows came back out of scan order".to_owned(),
                    ),
                );
            }
        }
        let it = item_of_row(&rows[i]);
        if !matches_query(query, &it) {
            proof {
                assert(decodes_to(rows@[i as int], it));
                assert(!row_matches(*query, rows@[i as int]));
                assert(!rows_admissible(*query, rows@));
            }
            return Err(
                StorageError::BackendError(
                    "the engine returned a row outside the query".to_owned(),
                ),
            );
        }
        proof {
            assert forall|x: HistoryItem<Anything>| #[trigger] decodes_to(
                rows@[i as int],
                x,
            ) implies query_matches(*query, x) by {
                lemma_decodings_match_alike(*query, rows@[i as int], it, x);
            }
            assert forall|a: int| 0 <= a < i implies row_before(
                query.direction,
                rows@[a],
                rows@[i as int],
            ) by {
                if a < i - 1 {
                    assert(row_before(query.direction, rows@[a], rows@[i - 1]));
                }
            }
        }
        out.push(it);
        last_raw = cur_raw;
        i += 1;
    }
    proof {
        assert(rows_admissible(*query, rows@));
    }
    match query.limit {
        Some(l) => {
            if l >= 0 && (out.len() as u64) > (l as u64) {
                proof {
                    assert(0 <= l as int <= usize::MAX as int);
                }
                out.truncate(l as usize);
            }
        },
        None => {},
    }
    proof {
        let d = query.direction;
        assert forall|k: int| 0 <= k < out@.len() implies (query_matches(
            *query,
            #[trigger] out@[k],
        ) && out@[k].id is Some && decodes_to(rows@[k], out@[k])) by {
            assert(decodes_to(rows@[k], out@[k]));
            assert(row_matches(*query, rows@[k]));
        }
        assert forall|a: int, b: int| 0 <= a < b < out@.len() implies id_before(
            d,
            #[trigger] out@[a],
            #[trigger] out@[b],
        ) by {
            assert(decodes_to(rows@[a], out@[a]));
            assert(decodes_to(rows@[b], out@[b]));
            assert(row_before(d, rows@[a], rows@[b]));
        }
    }
    Ok(out)
}

/// The outcome of a save for the item's prior identity, the store's
/// tracked last-assigned identity, and the identity the engine reports:
/// an upsert must come back under its own identity, an insert strictly
/// above the tracked one, and anything else is a backend failure.
pub fn save_outcome(entry_id: Option<HistoryItemId>, prev: Option<i64>, ret: i64) -> (r: Result<
    HistoryItemId,
    StorageError,
>)
    ensures
        match entry_id {
            Some(i) => {
                &&& ret as int == i@ ==> r == Ok::<HistoryItemId, StorageError>(i)
                &&& ret as int != i@ ==> (r matches Err(e) && e is BackendError)
            },
            None => {
                &&& (match prev {
                    Some(p) => ret > p,
                    None => true,
                }) ==> (r matches Ok(nid) && nid@ == ret as int)
                &&& (match prev {
                    Some(p) => ret <= p,
                    None => false,
                }) ==> (r matches Err(e) && e is BackendError)
            },
        },
{
    match entry_id {
        Some(i) => {
            if ret == i.raw() {
                Ok(i)
            } else {
                Err(
                    StorageError::BackendError(
                        "the engine reported a different identity".to_owned(),
                    ),
                )
            }
        },
        None => match prev {
            Some(p) => {
                if ret <= p {
                    Err(
                        StorageError::BackendError(
                            "the engine assigned a non-increasing identity".to_owned(),
                        ),
                    )
                } else {
                    Ok(HistoryItemId::new(ret))
                }
            },
            None => Ok(HistoryItemId::new(ret)),
        },
    }
}

/// The outcome of a delete for a given changed-row count: a delete that
/// changed no row failed to find its target, and one that changed any
/// succeeds.
pub fn delete_outcome(changed: usize) -> (r: Result<(), StorageError>)
    ensures
        changed == 0 <==> r == Err::<(), StorageError>(StorageError::NotFound),
        changed > 0 <==> r is Ok,
{
    if changed == 0 {
        Err(StorageError::NotFound)
    } else {
        Ok(())
    }
}

/// A history that stores its records in an embedded SQLite database.
///
/// The store exclusively owns one connection for its lifetime; every
/// operation is synchronous, and the connection is released when the store
/// is dropped.
pub struct SqliteBackedHistory {
    db: rusqlite::Connection,
    last_insert_id: Option<i64>,
    max_session_seen: i64,
}

impl SqliteBackedHistory {
    /// The greatest identity a save of a new item has handed back through
    /// this store, if any.
    pub closed spec fn spec_last_insert(&self) -> Option<i64> {
        self.last_insert_id
    }

    /// The greatest session identifier saved or allocated through this
    /// store; zero before any.
    pub closed spec fn spec_max_session(&self) -> i64 {
        self.max_session_seen
    }

    /// Configures a fresh connection and ensures the schema exists:
    /// write-ahead journaling, relaxed-but-safe synchronous mode,
    /// memory-mapped reads, foreign-key enforcement, case-sensitive
    /// pattern matching, and the idempotent creation of the history table
    /// and its indexes.
    fn from_connection(db: rusqlite::Connection) -> (r: Result<SqliteBackedHistory, StorageError>)
        ensures
            r matches Ok(st) ==> st.spec_last_insert() is None && st.spec_max_session() == 0,
            r matches Err(e) ==> e is BackendError,
    {
        match db_pragma_update(&db, "journal_mode", "wal") {
            Ok(_) => {},
            Err(e) => { return Err(backend_err(e)); },
        }
        match db_pragma_update(&db, "synchronous", "normal") {
            Ok(_) => {},
            Err(e) => { return Err(backend_err(e)); },
        }
        match db_pragma_update(&db, "mmap_size", "1000000000") {
            Ok(_) => {},
            Err(e) => { return Err(backend_err(e)); },
        }
        match db_pragma_update(&db, "foreign_keys", "on") {
            Ok(_) => {},
            Err(e) => { return Err(backend_err(e)); },
        }
        match db_pragma_update(&db, "case_sensitive_like", "on") {
            Ok(_) => {},
            Err(e) => { return Err(backend_err(e)); },
        }
        let schema = "
        create table if not exists history (
            id integer primary key autoincrement,
            command_line text not null,
            start_timestamp integer,
            session_id integer,
            hostname text,
            cwd text,
            duration_ms integer,
            exit_status integer,
            more_info text
        ) strict;
        create index if not exists idx_history_time on history(start_timestamp);
        create index if not exists idx_history_cwd on history(cwd);
        create index if not exists idx_history_exit_status on history(exit_status);
        create index if not exists idx_history_cmd on history(command_line);
        create index if not exists idx_history_session_id on history(session_id);
        ";
        match db_execute_batch(&db, schema) {
            Ok(_) => Ok(SqliteBackedHistory { db, last_insert_id: None, max_session_seen: 0 }),
            Err(e) => Err(backend_err(e)),
        }
    }

    /// Creates a new history in an ephemeral in-memory store.
    pub fn in_memory() -> (r: Result<SqliteBackedHistory, StorageError>)
        ensures
            r matches Ok(st) ==> st.spec_last_insert() is None && st.spec_max_session() == 0,
            r matches Err(e) ==> e is IoError || e is BackendError,
    {
        match db_open_in_memory() {
            Ok(db) => Self::from_connection(db),
            Err(e) => Err(io_err(e)),
        }
    }

    /// Creates a new history backed by the file at `path`, creating the
    /// file on first use. The parent directory must already exist.
    pub fn with_file(path: &str) -> (r: Result<SqliteBackedHistory, StorageError>)
        ensures
            r matches Ok(st) ==> st.spec_last_insert() is None && st.spec_max_session() == 0,
            r matches Err(e) ==> e is IoError || e is BackendError,
    {
        match db_open_file(path) {
            Ok(db) => Self::from_connection(db),
            Err(e) => Err(io_err(e)),
        }
    }

    /// Persists one item. A new item (`id` absent) is inserted and comes
    /// back with its backend-assigned identity, strictly greater than the
    /// identity of any new item previously saved through this store; an
    /// already persisted one is upserted (every field replaced) and comes
    /// back unchanged in identity. The adopted identity is exactly
    /// [`save_outcome`] of the engine's report; on an inadmissible report
    /// the statement is rolled back, so a failed save leaves the store
    /// unchanged. Every field but the identity comes back unchanged.
    pub fn save(&mut self, entry: HistoryItem<Anything>) -> (r: Result<
        HistoryItem<Anything>,
        StorageError,
    >)
        ensures
            r matches Ok(it) ==> {
                &&& it.id is Some
                &&& it.start_timestamp == entry.start_timestamp
                &&& it.command_line@ == entry.command_line@
                &&& it.session_id == entry.session_id
                &&& it.hostname == entry.hostname
                &&& it.cwd == entry.cwd
                &&& it.duration_ms == entry.duration_ms
                &&& it.exit_status == entry.exit_status
                &&& it.more_info == entry.more_info
            },
            r matches Ok(it) ==> (entry.id is None ==> {
                &&& it.id matches Some(nid) && (match old(self).spec_last_insert() {
                    Some(prev) => nid@ > prev as int,
                    None => true,
                })
                &&& final(self).spec_last_insert() matches Some(v) && it.id matches Some(nid)
                    && v as int == nid@
            }),
            r matches Ok(it) ==> (entry.id is Some ==> it.id == entry.id),
            entry.id is Some ==> final(self).spec_last_insert() == old(self).spec_last_insert(),
            r is Ok ==> (entry.session_id matches Some(s) ==> final(self).spec_max_session() as int >= s@),
            final(self).spec_max_session() >= old(self).spec_max_session(),
            r matches Err(e) ==> e is BackendError,
    {
        let params = item_params(&entry);
        let sql = "insert into history
                       (id,  start_timestamp,  command_line,  session_id,  hostname,  cwd,  duration_ms,  exit_status,  more_info)
                values (:id, :start_timestamp, :command_line, :session_id, :hostname, :cwd, :duration_ms, :exit_status, :more_info)
            on conflict (id) do update set
                start_timestamp = excluded.start_timestamp,
                command_line = excluded.command_line,
                session_id = excluded.session_id,
                hostname = excluded.hostname,
                cwd = excluded.cwd,
                duration_ms = excluded.duration_ms,
                exit_status = excluded.exit_status,
                more_info = excluded.more_info
            returning id";
        match db_execute_batch(&self.db, "savepoint save_item") {
            Ok(_) => {},
            Err(e) => { return Err(backend_err(e)); },
        }
        let ret = match db_query_i64(&self.db, sql, &params) {
            Ok(v) => v,
            Err(e) => {
                let _ = db_execute_batch(&self.db, "rollback to save_item; release save_item");
                return Err(backend_err(e));
            },
        };
        match save_outcome(entry.id, self.last_insert_id, ret) {
            Ok(nid) => {
                match db_execute_batch(&self.db, "release save_item") {
                    Ok(_) => {},
                    Err(e) => { return Err(backend_err(e)); },
                }
                if entry.id.is_none() {
                    self.last_insert_id = Some(ret);
                }
                match entry.session_id {
                    Some(s) => {
                        if s.raw() > self.max_session_seen {
                            self.max_session_seen = s.raw();
                        }
                    },
                    None => {},
                }
                let mut saved = entry;
                saved.id = Some(nid);
                Ok(saved)
            },
            Err(e) => {
                let _ = db_execute_batch(&self.db, "rollback to save_item; release save_item");
                Err(e)
            },
        }
    }

    /// Fetches exactly one record by identity; fails with `NotFound`
    /// exactly where the engine finds no row. The result is
    /// [`load_outcome`] of the engine's answer: the returned item is the
    /// decoding of the fetched row and carries the requested identity,
    /// and a row under another identity is a backend failure.
    pub fn load(&self, id: HistoryItemId) -> (r: Result<HistoryItem<Anything>, StorageError>)
        ensures
            r matches Ok(it) ==> it.id matches Some(x) && x@ == id@,
            r matches Err(e) ==> e is NotFound || e is BackendError,
    {
        let mut params: Vec<NamedParam> = Vec::new();
        params.push(NamedParam { name: ":id", value: SqlValue::Int(id.raw()) });
        match db_query_opt_row(&self.db, "select * from history where id = :id", &params) {
            Ok(fetched) => load_outcome(id, fetched),
            Err(e) => Err(backend_err(e)),
        }
    }

    /// Returns the matching rows, materialized, ordered ascending by
    /// identity for `Forward` and descending for `Backward`, truncated to
    /// the query's limit; the statement handed to the engine is exactly
    /// the lowering [`crate::sqlgen::sql_text`] / [`crate::sqlgen::sql_params`]
    /// of the query, and the result is exactly [`search_outcome`] of the
    /// rows it returned: every item satisfies the query, carries its
    /// identity, and comes in scan order, and an inadmissible engine
    /// answer is a backend failure. Completeness of the result set rests
    /// on the engine.
    pub fn search(&self, query: SearchQuery) -> (r: Result<Vec<HistoryItem<Anything>>, StorageError>)
        ensures
            r matches Ok(v) ==> forall|k: int|
                0 <= k < v@.len() ==> query_matches(query, #[trigger] v@[k]),
            r matches Ok(v) ==> forall|k: int| 0 <= k < v@.len() ==> (#[trigger] v@[k]).id is Some,
            r matches Ok(v) ==> ordered_by_id(query.direction, v@),
            r matches Ok(v) ==> (match query.limit {
                Some(l) => l >= 0 ==> v@.len() as int <= l as int,
                None => true,
            }),
            r matches Err(e) ==> e is BackendError,
    {
        let (sql, params) = construct_query(&query, "*");
        match db_query_rows(&self.db, sql.as_str(), &params) {
            Ok(rows) => search_outcome(&query, &rows),
            Err(e) => Err(backend_err(e)),
        }
    }

    /// Returns how many rows the equivalent `search` would match, ignoring
    /// the limit's truncation of the result. The result is exactly
    /// [`count_outcome`] of the value the engine's aggregate reports; a
    /// count is never negative.
    pub fn count(&self, query: SearchQuery) -> (r: Result<i64, StorageError>)
        ensures
            r matches Ok(c) ==> c >= 0,
            r matches Err(e) ==> e is BackendError,
    {
        let (sql, params) = construct_query(&query, "coalesce(count(*), 0)");
        match db_query_i64(&self.db, sql.as_str(), &params) {
            Ok(c) => count_outcome(c),
            Err(e) => Err(backend_err(e)),
        }
    }

    /// Loads the record at `id`, applies the pure transformation, and
    /// saves the result back under the same identity, the pair wrapped in
    /// a transaction so the read-modify-write is atomic. On success the
    /// transformation was applied to an item carrying the requested
    /// identity and its result saved back under that identity.
    pub fn update<F: Fn(HistoryItem<Anything>) -> HistoryItem<Anything>>(
        &mut self,
        id: HistoryItemId,
        updater: F,
    ) -> (r: Result<(), StorageError>)
        requires
            forall|it: HistoryItem<Anything>| #[trigger] updater.requires((it,)),
        ensures
            final(self).spec_last_insert() == old(self).spec_last_insert(),
            final(self).spec_max_session() >= old(self).spec_max_session(),
            r is Ok ==> exists|pre: HistoryItem<Anything>, post: HistoryItem<Anything>| {
                &&& pre.id matches Some(x) && x@ == id@
                &&& #[trigger] call_ensures(updater, (pre,), post)
            },
            r matches Err(e) ==> e is NotFound || e is BackendError,
    {
        match db_execute_batch(&self.db, "begin transaction") {
            Ok(_) => {},
            Err(e) => { return Err(backend_err(e)); },
        }
        let item = match self.load(id) {
            Ok(it) => it,
            Err(e) => {
                let _ = db_execute_batch(&self.db, "rollback");
                return Err(e);
            },
        };
        let ghost pre_item = item;
        let mut changed = updater(item);
        let ghost post_item = changed;
        changed.id = Some(id);
        match self.save(changed) {
            Ok(_) => {},
            Err(e) => {
                let _ = db_execute_batch(&self.db, "rollback");
                return Err(e);
            },
        }
        match db_execute_batch(&self.db, "commit") {
            Ok(_) => {
                proof {
                    assert(call_ensures(updater, (pre_item,), post_item));
                }
                Ok(())
            },
            Err(e) => Err(backend_err(e)),
        }
    }

    /// Removes the record at `id`; fails with `NotFound` where no row
    /// carried it, leaving the store unchanged. The outcome is exactly
    /// [`delete_outcome`] of the changed-row count the engine reports.
    pub fn delete(&mut self, h: HistoryItemId) -> (r: Result<(), StorageError>)
        ensures
            final(self).spec_last_insert() == old(self).spec_last_insert(),
            final(self).spec_max_session() == old(self).spec_max_session(),
            r matches Err(e) ==> e is NotFound || e is BackendError,
    {
        let mut params: Vec<NamedParam> = Vec::new();
        params.push(NamedParam { name: ":id", value: SqlValue::Int(h.raw()) });
        match db_execute(&self.db, "delete from history where id = :id", &params) {
            Ok(changed) => delete_outcome(changed),
            Err(e) => Err(backend_err(e)),
        }
    }

    /// Flushes buffered state to durable storage. The backend commits
    /// durably on every write, so there is nothing left to flush and the
    /// store is left untouched.
    pub fn sync(&mut self) -> (r: Result<(), StorageError>)
        ensures
            r is Ok,
            *final(self) == *old(self),
    {
        Ok(())
    }

    /// Allocates a session identifier distinct from, and numerically
    /// greater than, every session identifier previously observed in the
    /// store: greater than any in the backing rows, and strictly greater
    /// than any saved or allocated through this store, so successive
    /// allocations strictly increase. The result is [`session_outcome`]
    /// of the tracked maximum and the engine's aggregate; on an empty
    /// store the aggregate makes the first allocation `1`.
    pub fn new_session_id(&mut self) -> (r: Result<HistorySessionId, StorageError>)
        ensures
            r matches Ok(s) ==> {
                &&& s@ > old(self).spec_max_session() as int
                &&& final(self).spec_max_session() as int == s@
            },
            final(self).spec_max_session() >= old(self).spec_max_session(),
            r matches Err(e) ==> e is BackendError,
    {
        let params: Vec<NamedParam> = Vec::new();
        match db_query_i64(
            &self.db,
            "select coalesce(max(session_id), 0) + 1 from history",
            &params,
        ) {
            Ok(v) => match session_outcome(self.max_session_seen, v) {
                Ok(s) => {
                    self.max_session_seen = s.raw();
                    Ok(s)
                },
                Err(e) => Err(e),
            },
            Err(e) => Err(backend_err(e)),
        }
    }
}

} // verus!
