use vstd::prelude::*;

use crate::suggest::db::{AmpDetailsRow, KeywordMatch, KEYWORD_LOOKUP_SQL};
use crate::suggest::interrupt::SqlInterruptScope;

verus! {

#[verifier::external_type_specification]
#[verifier::external_body]
pub struct ExConnection(rusqlite::Connection);

#[verifier::external_type_specification]
#[verifier::external_body]
pub struct ExSqliteError(rusqlite::Error);

#[verifier::external_type_specification]
#[verifier::external_body]
pub struct ExOpenFlags(rusqlite::OpenFlags);

/// A statement that changes the database, with the values bound to its
/// named parameters. Strings are given as character sequences, bytes as
/// byte sequences.
pub enum SqlWrite {
    InsertAmpDetails {
        suggestion_id: int,
        advertiser: Seq<char>,
        block_id: int,
        iab_category: Seq<char>,
        impression_url: Seq<char>,
        click_url: Seq<char>,
    },
    InsertKeyword { keyword: Seq<char>, suggestion_id: int, rank: int },
    InsertIcon { id: Seq<char>, data: Seq<u8> },
    DropSuggestions { record_id: Seq<char> },
    DropIcon { id: Seq<char> },
    /// A batch of statements with no bound values; the text is recorded
    /// beside it.
    Batch,
    PutMeta { key: Seq<char>, value: int },
}

/// One call into SQLite: the statement text, the values bound to it, and
/// what SQLite answered. An answer of `None` (or `ok == false`) means that
/// SQLite reported an error.
pub enum SqlCall {
    Write { sql: Seq<char>, stmt: SqlWrite, ok: bool },
    InsertSuggestion {
        sql: Seq<char>,
        record_id: Seq<char>,
        provider: int,
        title: Seq<char>,
        url: Seq<char>,
        icon_id: Seq<char>,
        id: Option<i64>,
    },
    LookupKeyword { sql: Seq<char>, keyword: Seq<char>, rows: Option<Seq<KeywordMatch>> },
    KeywordsFromRank {
        sql: Seq<char>,
        suggestion_id: i64,
        rank: i64,
        keywords: Option<Seq<String>>,
    },
    AmpDetails { sql: Seq<char>, suggestion_id: i64, details: Option<AmpDetailsRow> },
    GetMeta { sql: Seq<char>, key: Seq<char>, value: Option<Option<i64>> },
    /// A check whether the work has been interrupted, with its answer.
    InterruptCheck { interrupted: bool },
    /// The start of a transaction, and whether SQLite accepted it.
    Begin { ok: bool },
    /// The commit of a transaction, and whether SQLite accepted it.
    Commit { ok: bool },
}

/// The calls that have been made into SQLite through one connection, and
/// the interruption checks made between them, in order. Only the functions
/// of this module add to it.
pub struct SqlLog {
    calls: Ghost<Seq<SqlCall>>,
}

impl SqlLog {
    pub closed spec fn calls(&self) -> Seq<SqlCall> {
        self.calls@
    }

    pub fn new() -> (log: SqlLog)
        ensures
            log.calls() == Seq::<SqlCall>::empty(),
    {
        SqlLog { calls: Ghost(Seq::empty()) }
    }
}

/// Asks the scope whether the work has been interrupted, and records the
/// answer.
pub fn check_interrupt(log: &mut SqlLog, scope: &SqlInterruptScope) -> (interrupted: bool)
    ensures
        final(log).calls() == old(log).calls().push(SqlCall::InterruptCheck { interrupted }),
{
    let interrupted = scope.was_interrupted();
    proof {
        log.calls@ = log.calls@.push(SqlCall::InterruptCheck { interrupted });
    }
    interrupted
}

#[verifier::external_type_specification]
#[verifier::external_body]
pub struct ExTransaction<'conn>(rusqlite::Transaction<'conn>);

/// `rusqlite::Connection::transaction`: begins a transaction on the
/// connection, recording whether SQLite accepted it.
#[verifier::external_body]
pub(crate) fn begin_transaction<'c>(conn: &'c mut rusqlite::Connection, log: &mut SqlLog) -> (r: Result<
    rusqlite::Transaction<'c>,
    rusqlite::Error,
>)
    ensures
        final(log).calls() == old(log).calls().push(SqlCall::Begin { ok: r is Ok }),
{
    conn.transaction()
}

/// The connection that a transaction runs on (`Deref` of
/// `rusqlite::Transaction`).
#[verifier::external_body]
pub(crate) fn transaction_connection<'a, 'c>(tx: &'a rusqlite::Transaction<'c>) -> (c: &'a rusqlite::Connection) {
    tx
}

/// `rusqlite::Transaction::commit`: commits the transaction, recording
/// whether SQLite accepted the commit.
#[verifier::external_body]
pub(crate) fn commit_transaction<'c>(tx: rusqlite::Transaction<'c>, log: &mut SqlLog) -> (r: Result<
    (),
    rusqlite::Error,
>)
    ensures
        final(log).calls() == old(log).calls().push(SqlCall::Commit { ok: r is Ok }),
{
    tx.commit()
}

// Each function below hands one statement, with the given values bound to
// its named parameters, to SQLite, and appends the call, with SQLite's
// answer, to the log. What SQLite answers depends on what the database holds
// and is otherwise left unsaid.

/// `rusqlite::Connection::prepare_cached` and `rusqlite::Statement::query_row`
/// on `sql`, reading the first column of the row it returns (the id of the
/// inserted suggestion).
#[verifier::external_body]
pub(crate) fn insert_suggestion_row(
    conn: &rusqlite::Connection,
    log: &mut SqlLog,
    sql: &str,
    record_id: &str,
    provider: i64,
    title: &str,
    url: &str,
    icon_id: &str,
) -> (r: Result<i64, rusqlite::Error>)
    ensures
        final(log).calls() == old(log).calls().push(
            SqlCall::InsertSuggestion {
                sql: sql@,
                record_id: record_id@,
                provider: provider as int,
                title: title@,
                url: url@,
                icon_id: icon_id@,
                id: match r {
                    Ok(id) => Some(id),
                    Err(_) => None,
                },
            },
        ),
{
    let mut stmt = conn.prepare_cached(sql)?;
    stmt.query_row(
        &[(":record_id", &record_id as &dyn rusqlite::ToSql), (":provider", &provider as &dyn rusqlite::ToSql), (":title", &title as &dyn rusqlite::ToSql), (":url", &url as &dyn rusqlite::ToSql), (":icon_id", &icon_id as &dyn rusqlite::ToSql)] as &[(&str, &dyn rusqlite::ToSql)],
        |row| row.get(0),
    )
}

/// `rusqlite::Connection::execute` on `sql`, binding the sponsored details.
#[verifier::external_body]
pub(crate) fn insert_amp_details_row(
    conn: &rusqlite::Connection,
    log: &mut SqlLog,
    sql: &str,
    suggestion_id: i64,
    advertiser: &str,
    block_id: i64,
    iab_category: &str,
    impression_url: &str,
    click_url: &str,
) -> (r: Result<usize, rusqlite::Error>)
    ensures
        final(log).calls() == old(log).calls().push(
            SqlCall::Write {
                sql: sql@,
                stmt: SqlWrite::InsertAmpDetails {
                    suggestion_id: suggestion_id as int,
                    advertiser: advertiser@,
                    block_id: block_id as int,
                    iab_category: iab_category@,
                    impression_url: impression_url@,
                    click_url: click_url@,
                },
                ok: r is Ok,
            },
        ),
{
    conn.execute(
        sql,
        &[(":suggestion_id", &suggestion_id as &dyn rusqlite::ToSql), (":advertiser", &advertiser as &dyn rusqlite::ToSql), (":block_id", &block_id as &dyn rusqlite::ToSql), (":iab_category", &iab_category as &dyn rusqlite::ToSql), (":impression_url", &impression_url as &dyn rusqlite::ToSql), (":click_url", &click_url as &dyn rusqlite::ToSql)] as &[(&str, &dyn rusqlite::ToSql)],
    )
}

/// `rusqlite::Connection::execute` on `sql`, binding a keyword row.
#[verifier::external_body]
pub(crate) fn insert_keyword_row(
    conn: &rusqlite::Connection,
    log: &mut SqlLog,
    sql: &str,
    keyword: &str,
    suggestion_id: i64,
    rank: i64,
) -> (r: Result<usize, rusqlite::Error>)
    ensures
        final(log).calls() == old(log).calls().push(
            SqlCall::Write {
                sql: sql@,
                stmt: SqlWrite::InsertKeyword {
                    keyword: keyword@,
                    suggestion_id: suggestion_id as int,
                    rank: rank as int,
                },
                ok: r is Ok,
            },
        ),
{
    conn.execute(
        sql,
        &[(":keyword", &keyword as &dyn rusqlite::ToSql), (":rank", &rank as &dyn rusqlite::ToSql), (":suggestion_id", &suggestion_id as &dyn rusqlite::ToSql)] as &[(&str, &dyn rusqlite::ToSql)],
    )
}

/// `rusqlite::Connection::execute` on `sql`, binding an icon.
#[verifier::external_body]
pub(crate) fn insert_icon_row(
    conn: &rusqlite::Connection,
    log: &mut SqlLog,
    sql: &str,
    id: &str,
    data: &[u8],
) -> (r: Result<usize, rusqlite::Error>)
    ensures
        final(log).calls() == old(log).calls().push(
            SqlCall::Write { sql: sql@, stmt: SqlWrite::InsertIcon { id: id@, data: data@ }, ok: r is Ok },
        ),
{
    conn.execute(
        sql,
        &[(":id", &id as &dyn rusqlite::ToSql), (":data", &data as &dyn rusqlite::ToSql)] as &[(&str, &dyn rusqlite::ToSql)],
    )
}

/// `rusqlite::Connection::prepare_cached` and `rusqlite::Statement::execute`
/// on `sql`, binding a record id.
#[verifier::external_body]
pub(crate) fn delete_suggestions_rows(
    conn: &rusqlite::Connection,
    log: &mut SqlLog,
    sql: &str,
    record_id: &str,
) -> (r: Result<usize, rusqlite::Error>)
    ensures
        final(log).calls() == old(log).calls().push(
            SqlCall::Write { sql: sql@, stmt: SqlWrite::DropSuggestions { record_id: record_id@ }, ok: r is Ok },
        ),
{
    let mut stmt = conn.prepare_cached(sql)?;
    stmt.execute(&[(":record_id", &record_id as &dyn rusqlite::ToSql)] as &[(&str, &dyn rusqlite::ToSql)])
}

/// `rusqlite::Connection::prepare_cached` and `rusqlite::Statement::execute`
/// on `sql`, binding an icon id.
#[verifier::external_body]
pub(crate) fn delete_icon_row(conn: &rusqlite::Connection, log: &mut SqlLog, sql: &str, id: &str) -> (r: Result<
    usize,
    rusqlite::Error,
>)
    ensures
        final(log).calls() == old(log).calls().push(
            SqlCall::Write { sql: sql@, stmt: SqlWrite::DropIcon { id: id@ }, ok: r is Ok },
        ),
{
    let mut stmt = conn.prepare_cached(sql)?;
    stmt.execute(&[(":id", &id as &dyn rusqlite::ToSql)] as &[(&str, &dyn rusqlite::ToSql)])
}

/// `rusqlite::Connection::execute_batch` on `sql`.
#[verifier::external_body]
pub(crate) fn execute_batch(conn: &rusqlite::Connection, log: &mut SqlLog, sql: &str) -> (r: Result<
    (),
    rusqlite::Error,
>)
    ensures
        final(log).calls() == old(log).calls().push(
            SqlCall::Write { sql: sql@, stmt: SqlWrite::Batch, ok: r is Ok },
        ),
{
    conn.execute_batch(sql)
}

/// `rusqlite::Connection::prepare_cached` and `rusqlite::Statement::execute`
/// on `sql`, binding a metadata key and value.
#[verifier::external_body]
pub(crate) fn replace_meta(
    conn: &rusqlite::Connection,
    log: &mut SqlLog,
    sql: &str,
    key: &str,
    value: i64,
) -> (r: Result<usize, rusqlite::Error>)
    ensures
        final(log).calls() == old(log).calls().push(
            SqlCall::Write { sql: sql@, stmt: SqlWrite::PutMeta { key: key@, value: value as int }, ok: r is Ok },
        ),
{
    let mut stmt = conn.prepare_cached(sql)?;
    stmt.execute(&[(":key", &key as &dyn rusqlite::ToSql), (":value", &value as &dyn rusqlite::ToSql)] as &[(&str, &dyn rusqlite::ToSql)])
}

/// `rusqlite::Connection::prepare_cached` and
/// `rusqlite::Statement::query_and_then` on `sql`, binding a keyword and
/// reading the named columns of every row. When `sql` is the keyword lookup,
/// whose `LIMIT 1` lets SQLite return at most one row, at most one row comes
/// back.
#[verifier::external_body]
pub(crate) fn select_keyword_matches(
    conn: &rusqlite::Connection,
    log: &mut SqlLog,
    sql: &str,
    keyword: &str,
) -> (r: Result<Vec<KeywordMatch>, rusqlite::Error>)
    ensures
        final(log).calls() == old(log).calls().push(
            SqlCall::LookupKeyword {
                sql: sql@,
                keyword: keyword@,
                rows: match r {
                    Ok(rows) => Some(rows@),
                    Err(_) => None,
                },
            },
        ),
        sql@ == KEYWORD_LOOKUP_SQL@ ==> (r matches Ok(rows) ==> rows@.len() <= 1),
{
    let mut stmt = conn.prepare_cached(sql)?;
    let rows = stmt.query_and_then(&[(":keyword", &keyword as &dyn rusqlite::ToSql)] as &[(&str, &dyn rusqlite::ToSql)], |row| -> Result<KeywordMatch, rusqlite::Error> {
        Ok(KeywordMatch { id: row.get("id")?, rank: row.get("rank")?, title: row.get("title")?, url: row.get("url")?, provider: row.get("provider")?, icon: row.get("icon")? })
    })?;
    rows.collect()
}

/// `rusqlite::Connection::prepare_cached` and
/// `rusqlite::Statement::query_and_then` on `sql`, binding a suggestion id and
/// a rank and reading the first column of every row.
#[verifier::external_body]
pub(crate) fn select_keywords_from_rank(
    conn: &rusqlite::Connection,
    log: &mut SqlLog,
    sql: &str,
    suggestion_id: i64,
    rank: i64,
) -> (r: Result<Vec<String>, rusqlite::Error>)
    ensures
        final(log).calls() == old(log).calls().push(
            SqlCall::KeywordsFromRank {
                sql: sql@,
                suggestion_id,
                rank,
                keywords: match r {
                    Ok(k) => Some(k@),
                    Err(_) => None,
                },
            },
        ),
{
    let mut stmt = conn.prepare_cached(sql)?;
    let rows = stmt.query_and_then(&[(":suggestion_id", &suggestion_id as &dyn rusqlite::ToSql), (":rank", &rank as &dyn rusqlite::ToSql)] as &[(&str, &dyn rusqlite::ToSql)], |row| row.get(0))?;
    rows.collect()
}

/// `rusqlite::Connection::query_row_and_then` on `sql`, binding a suggestion
/// id and reading the named columns of the first row (an error when there is
/// none).
#[verifier::external_body]
pub(crate) fn select_amp_details(
    conn: &rusqlite::Connection,
    log: &mut SqlLog,
    sql: &str,
    suggestion_id: i64,
) -> (r: Result<AmpDetailsRow, rusqlite::Error>)
    ensures
        final(log).calls() == old(log).calls().push(
            SqlCall::AmpDetails {
                sql: sql@,
                suggestion_id,
                details: match r {
                    Ok(d) => Some(d),
                    Err(_) => None,
                },
            },
        ),
{
    conn.query_row_and_then(
        sql,
        &[(":suggestion_id", &suggestion_id as &dyn rusqlite::ToSql)] as &[(&str, &dyn rusqlite::ToSql)],
        |row| Ok(AmpDetailsRow { advertiser: row.get("advertiser")?, block_id: row.get("block_id")?, iab_category: row.get("iab_category")?, impression_url: row.get("impression_url")?, click_url: row.get("click_url")? }),
    )
}

/// `rusqlite::Connection::prepare_cached` and `rusqlite::Statement::query_row`
/// on `sql`, binding a metadata key and reading the first column, with no
/// row turned into `None` by `rusqlite::OptionalExtension::optional`.
#[verifier::external_body]
pub(crate) fn select_meta(conn: &rusqlite::Connection, log: &mut SqlLog, sql: &str, key: &str) -> (r: Result<
    Option<i64>,
    rusqlite::Error,
>)
    ensures
        final(log).calls() == old(log).calls().push(
            SqlCall::GetMeta {
                sql: sql@,
                key: key@,
                value: match r {
                    Ok(v) => Some(v),
                    Err(_) => None,
                },
            },
        ),
{
    let mut stmt = conn.prepare_cached(sql)?;
    rusqlite::OptionalExtension::optional(stmt.query_row(&[(":key", &key as &dyn rusqlite::ToSql)] as &[(&str, &dyn rusqlite::ToSql)], |row| row.get(0)))
}

// Open flags.

/// The open flags that `rusqlite::OpenFlags::from_bits_retain` makes of a
/// bit set.
pub uninterp spec fn sqlite_open_flags(bits: i32) -> rusqlite::OpenFlags;

/// `rusqlite::OpenFlags::from_bits_retain`: the flags with exactly these
/// bits, named by `sqlite_open_flags`.
#[verifier::external_body]
pub(crate) fn open_flags_from_bits(bits: i32) -> (f: rusqlite::OpenFlags)
    ensures
        f == sqlite_open_flags(bits),
{
    rusqlite::OpenFlags::from_bits_retain(bits)
}

/// The bits of `rusqlite::OpenFlags::SQLITE_OPEN_READ_ONLY`, which rusqlite
/// defines as SQLite's `SQLITE_OPEN_READONLY` (1).
#[verifier::external_body]
pub(crate) fn read_only_bits() -> (b: i32)
    ensures
        b == 1,
{
    rusqlite::OpenFlags::SQLITE_OPEN_READ_ONLY.bits()
}

/// The bits of `rusqlite::OpenFlags::SQLITE_OPEN_READ_WRITE`, which rusqlite
/// defines as SQLite's `SQLITE_OPEN_READWRITE` (2).
#[verifier::external_body]
pub(crate) fn read_write_bits() -> (b: i32)
    ensures
        b == 2,
{
    rusqlite::OpenFlags::SQLITE_OPEN_READ_WRITE.bits()
}

/// The bits of `rusqlite::OpenFlags::SQLITE_OPEN_CREATE`, which rusqlite
/// defines as SQLite's `SQLITE_OPEN_CREATE` (4).
#[verifier::external_body]
pub(crate) fn create_bits() -> (b: i32)
    ensures
        b == 4,
{
    rusqlite::OpenFlags::SQLITE_OPEN_CREATE.bits()
}

/// The bits of `rusqlite::OpenFlags::SQLITE_OPEN_URI`, which rusqlite defines
/// as SQLite's `SQLITE_OPEN_URI` (0x40).
#[verifier::external_body]
pub(crate) fn uri_bits() -> (b: i32)
    ensures
        b == 0x40,
{
    rusqlite::OpenFlags::SQLITE_OPEN_URI.bits()
}

/// The bits of `rusqlite::OpenFlags::SQLITE_OPEN_NO_MUTEX`, which rusqlite
/// defines as SQLite's `SQLITE_OPEN_NOMUTEX` (0x8000).
#[verifier::external_body]
pub(crate) fn no_mutex_bits() -> (b: i32)
    ensures
        b == 0x8000,
{
    rusqlite::OpenFlags::SQLITE_OPEN_NO_MUTEX.bits()
}

} // verus!
