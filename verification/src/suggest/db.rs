use vstd::prelude::*;

use crate::suggest::sqlite;
use crate::suggest::sqlite::{SqlCall, SqlWrite};
use crate::suggest::interrupt::SqlInterruptScope;
use crate::suggest::keyword::{full_keyword, spec_full_keyword, string_views};
use crate::suggest::{DownloadedSuggestion, SuggestRecordId, Suggestion, SuggestionProvider};
use vstd::string::*;

verus! {

/// What can go wrong while reading or writing the Suggest database.
#[derive(Debug)]
pub enum SuggestError {
    /// SQLite refused a statement or a value.
    Sql(rusqlite::Error),
    /// A stored suggestion names a provider code that no provider has.
    UnknownProvider(i64),
    /// The work was interrupted from another thread.
    Interrupted,
}

/// The SQLite flag bits named by the flags that a connection is opened
/// with.
pub open spec fn flag_read_only() -> i32 { 1 }
pub open spec fn flag_read_write() -> i32 { 2 }
pub open spec fn flag_create() -> i32 { 4 }
pub open spec fn flag_uri() -> i32 { 0x40 }
pub open spec fn flag_no_mutex() -> i32 { 0x8000 }

/// How a connection to the Suggest database is opened.
#[derive(Debug, Clone, Copy, PartialEq, Eq, Structural)]
pub enum ConnectionType {
    ReadOnly,
    ReadWrite,
}

impl ConnectionType {
    /// The SQLite open flags for this kind of connection: URIs allowed and no
    /// per-connection mutex in both cases; read-only, or read-write with
    /// creation of a missing database.
    pub open spec fn flag_bits(self) -> i32 {
        match self {
            ConnectionType::ReadOnly => flag_uri() | flag_no_mutex() | flag_read_only(),
            ConnectionType::ReadWrite => flag_uri() | flag_no_mutex() | flag_create()
                | flag_read_write(),
        }
    }

    /// Computes `flag_bits` from the flags that rusqlite defines.
    pub fn open_flag_bits(self) -> (b: i32)
        ensures
            b == self.flag_bits(),
    {
        match self {
            ConnectionType::ReadOnly => sqlite::uri_bits() | sqlite::no_mutex_bits()
                | sqlite::read_only_bits(),
            ConnectionType::ReadWrite => sqlite::uri_bits() | sqlite::no_mutex_bits()
                | sqlite::create_bits() | sqlite::read_write_bits(),
        }
    }

    /// The `rusqlite::OpenFlags` to open this kind of connection with.
    pub fn open_flags(self) -> (f: rusqlite::OpenFlags)
        ensures
            f == sqlite::sqlite_open_flags(self.flag_bits()),
    {
        sqlite::open_flags_from_bits(self.open_flag_bits())
    }
}

/// A read-only connection never asks to write or to create the database; a
/// read-write one never asks for read-only access; both allow URIs and use
/// no per-connection mutex.
pub proof fn lemma_connection_flags(t: ConnectionType)
    ensures
        t.flag_bits() & flag_uri() != 0,
        t.flag_bits() & flag_no_mutex() != 0,
        t == ConnectionType::ReadOnly ==> t.flag_bits() & flag_read_only() != 0 && t.flag_bits()
            & flag_read_write() == 0 && t.flag_bits() & flag_create() == 0,
        t == ConnectionType::ReadWrite ==> t.flag_bits() & flag_read_only() == 0 && t.flag_bits()
            & flag_read_write() != 0 && t.flag_bits() & flag_create() != 0,
{
    let ro: i32 = 0x40i32 | 0x8000i32 | 1i32;
    let rw: i32 = 0x40i32 | 0x8000i32 | 4i32 | 2i32;
    assert(ro & 0x40 != 0 && ro & 0x8000 != 0 && ro & 1 != 0 && ro & 2 == 0 && ro & 4 == 0)
        by (bit_vector)
        requires
            ro == 0x40i32 | 0x8000i32 | 1i32,
    ;
    assert(rw & 0x40 != 0 && rw & 0x8000 != 0 && rw & 1 == 0 && rw & 2 != 0 && rw & 4 != 0)
        by (bit_vector)
        requires
            rw == 0x40i32 | 0x8000i32 | 4i32 | 2i32,
    ;
}

/// The metadata key whose value is the timestamp of the last record
/// ingested from the Suggest Remote Settings collection.
pub const LAST_INGEST_META_KEY: &'static str = "last_quicksuggest_ingest";

/// The IAB categories of the suggestions that are not sponsored.
pub const NONSPONSORED_IAB_CATEGORIES: [&'static str; 1] = ["5 - Education"];

/// Whether suggestions with this IAB category are not sponsored: it is one of
/// `NONSPONSORED_IAB_CATEGORIES`.
pub open spec fn is_nonsponsored_category(category: Seq<char>) -> bool {
    exists|i: int|
        0 <= i < NONSPONSORED_IAB_CATEGORIES@.len() && #[trigger] NONSPONSORED_IAB_CATEGORIES@[i]@
            == category
}

/// Whether a suggestion with this IAB category is not sponsored.
pub fn is_nonsponsored_iab_category(category: &String) -> (b: bool)
    ensures
        b == is_nonsponsored_category(category@),
{
    let mut i: usize = 0;
    while i < NONSPONSORED_IAB_CATEGORIES.len()
        invariant
            i <= NONSPONSORED_IAB_CATEGORIES@.len(),
            forall|j: int| 0 <= j < i ==> #[trigger] NONSPONSORED_IAB_CATEGORIES@[j]@ != category@,
        decreases NONSPONSORED_IAB_CATEGORIES@.len() - i,
    {
        let c = String::from_str(NONSPONSORED_IAB_CATEGORIES[i]);
        if *category == c {
            return true;
        }
        i = i + 1;
    }
    false
}

/// The suggestion columns of the row found for a keyword.
#[derive(Debug)]
pub struct KeywordMatch {
    pub id: i64,
    pub rank: i64,
    pub title: String,
    pub url: String,
    pub provider: i64,
    pub icon: Option<Vec<u8>>,
}

/// The sponsored details stored for an AMP suggestion.
#[derive(Debug)]
pub struct AmpDetailsRow {
    pub advertiser: String,
    pub block_id: i64,
    pub iab_category: String,
    pub impression_url: Option<String>,
    pub click_url: Option<String>,
}

/// `s` is the AMP suggestion for `keyword` built from its row, the keywords
/// from its rank on, and its sponsored details.
pub open spec fn is_amp_suggestion(
    s: Suggestion,
    keyword: Seq<char>,
    row: KeywordMatch,
    keywords: Seq<String>,
    amp: AmpDetailsRow,
) -> bool {
    &&& s.provider == SuggestionProvider::Amp
    &&& s.block_id == amp.block_id
    &&& s.advertiser@ == amp.advertiser@
    &&& s.iab_category@ == amp.iab_category@
    &&& s.is_sponsored == !is_nonsponsored_category(amp.iab_category@)
    &&& s.title@ == row.title@
    &&& s.url@ == row.url@
    &&& s.full_keyword@ == spec_full_keyword(keyword, string_views(keywords))
    &&& s.icon == row.icon
    &&& s.impression_url == amp.impression_url
    &&& s.click_url == amp.click_url
}

/// `s` is the Wikipedia suggestion for `keyword` built from its row and the
/// keywords from its rank on: never sponsored, with the fixed advertiser
/// "Wikipedia" and category "5 - Education", block id 0 and no tracking
/// URLs.
pub open spec fn is_wikipedia_suggestion(
    s: Suggestion,
    keyword: Seq<char>,
    row: KeywordMatch,
    keywords: Seq<String>,
) -> bool {
    &&& s.provider == SuggestionProvider::Wikipedia
    &&& s.block_id == 0
    &&& s.advertiser@ == "Wikipedia"@
    &&& s.iab_category@ == "5 - Education"@
    &&& !s.is_sponsored
    &&& s.title@ == row.title@
    &&& s.url@ == row.url@
    &&& s.full_keyword@ == spec_full_keyword(keyword, string_views(keywords))
    &&& s.icon == row.icon
    &&& s.impression_url is None
    &&& s.click_url is None
}

/// `s` is the suggestion that a keyword row gives, with the keywords and,
/// for AMP, the sponsored details read for it.
pub open spec fn is_suggestion_for(s: Suggestion, keyword: Seq<char>, row: KeywordMatch) -> bool {
    match SuggestionProvider::from_code(row.provider as int) {
        Some(SuggestionProvider::Amp) => exists|keywords: Seq<String>, amp: AmpDetailsRow|
            #[trigger] is_amp_suggestion(s, keyword, row, keywords, amp),
        Some(SuggestionProvider::Wikipedia) => exists|keywords: Seq<String>|
            #[trigger] is_wikipedia_suggestion(s, keyword, row, keywords),
        None => false,
    }
}

/// Builds the AMP suggestion for `keyword` from its row, the keywords from
/// its rank on, and its sponsored details.
pub fn amp_suggestion(keyword: &str, row: KeywordMatch, keywords: &[String], amp: AmpDetailsRow) -> (s: Suggestion)
    ensures
        is_amp_suggestion(s, keyword@, row, keywords@, amp),
{
    let is_sponsored = !is_nonsponsored_iab_category(&amp.iab_category);
    Suggestion {
        block_id: amp.block_id,
        advertiser: amp.advertiser,
        iab_category: amp.iab_category,
        is_sponsored,
        title: row.title,
        url: row.url,
        full_keyword: full_keyword(keyword, keywords),
        icon: row.icon,
        impression_url: amp.impression_url,
        click_url: amp.click_url,
        provider: SuggestionProvider::Amp,
    }
}

/// Builds the Wikipedia suggestion for `keyword` from its row and the
/// keywords from its rank on.
pub fn wikipedia_suggestion(keyword: &str, row: KeywordMatch, keywords: &[String]) -> (s: Suggestion)
    ensures
        is_wikipedia_suggestion(s, keyword@, row, keywords@),
{
    Suggestion {
        block_id: 0,
        advertiser: String::from_str("Wikipedia"),
        iab_category: String::from_str("5 - Education"),
        is_sponsored: false,
        title: row.title,
        url: row.url,
        full_keyword: full_keyword(keyword, keywords),
        icon: row.icon,
        impression_url: None,
        click_url: None,
        provider: SuggestionProvider::Wikipedia,
    }
}

// The statements that the data access object hands to SQLite.

/// Inserts a suggestion row and returns its id.
pub const INSERT_SUGGESTION_SQL: &'static str = "INSERT INTO suggestions(record_id, provider, title, url, icon_id) VALUES(:record_id, :provider, :title, :url, :icon_id) RETURNING id";

/// Inserts the sponsored details of an AMP suggestion.
pub const INSERT_AMP_DETAILS_SQL: &'static str = "INSERT INTO amp_custom_details(suggestion_id, advertiser, block_id, iab_category, impression_url, click_url) VALUES(:suggestion_id, :advertiser, :block_id, :iab_category, :impression_url, :click_url)";

/// Inserts one keyword of a suggestion, with its rank.
pub const INSERT_KEYWORD_SQL: &'static str = "INSERT INTO keywords(keyword, suggestion_id, rank) VALUES(:keyword, :suggestion_id, :rank)";

/// Inserts an icon.
pub const INSERT_ICON_SQL: &'static str = "INSERT INTO icons(id, data) VALUES(:id, :data)";

/// Deletes the suggestions of a record.
pub const DROP_SUGGESTIONS_SQL: &'static str = "DELETE FROM suggestions WHERE record_id = :record_id";

/// Deletes an icon.
pub const DROP_ICON_SQL: &'static str = "DELETE FROM icons WHERE id = :id";

/// Deletes all suggestions, icons and metadata.
pub const CLEAR_SQL: &'static str = "DELETE FROM suggestions; DELETE FROM icons; DELETE FROM meta;";

/// Sets the value of a metadata key, replacing any earlier value.
pub const PUT_META_SQL: &'static str = "REPLACE INTO meta(key, value) VALUES(:key, :value)";

/// Reads the value of a metadata key.
pub const GET_META_SQL: &'static str = "SELECT value FROM meta WHERE key = :key";

/// Finds the suggestion that has a keyword equal to `:keyword`: at most one.
pub const KEYWORD_LOOKUP_SQL: &'static str = "SELECT s.id, k.rank, s.title, s.url, s.provider, (SELECT i.data FROM icons i WHERE i.id = s.icon_id) AS icon FROM suggestions s JOIN keywords k ON k.suggestion_id = s.id WHERE k.keyword = :keyword LIMIT 1";

/// Lists the keywords of a suggestion from a rank on, in rank order.
pub const KEYWORDS_FROM_RANK_SQL: &'static str = "SELECT keyword FROM keywords WHERE suggestion_id = :suggestion_id AND rank >= :rank ORDER BY rank ASC";

/// Reads the sponsored details of an AMP suggestion.
pub const AMP_DETAILS_SQL: &'static str = "SELECT amp.advertiser, amp.block_id, amp.iab_category, amp.impression_url, amp.click_url FROM amp_custom_details amp WHERE amp.suggestion_id = :suggestion_id";

/// A successful write of `stmt` with the statement text `sql`.
pub open spec fn written(sql: &str, stmt: SqlWrite) -> SqlCall {
    SqlCall::Write { sql: sql@, stmt, ok: true }
}

/// The same call, answered by an error.
pub open spec fn failed(c: SqlCall) -> SqlCall {
    match c {
        SqlCall::Write { sql, stmt, ok } => SqlCall::Write { sql, stmt, ok: false },
        SqlCall::InsertSuggestion { sql, record_id, provider, title, url, icon_id, id } => {
            SqlCall::InsertSuggestion { sql, record_id, provider, title, url, icon_id, id: None }
        },
        _ => c,
    }
}

/// The keyword rows written for a suggestion with the given keywords: one row
/// per keyword, in order, each ranked by its position.
pub open spec fn keyword_writes(keywords: Seq<String>, suggestion_id: int) -> Seq<SqlCall> {
    Seq::new(
        keywords.len(),
        |i: int|
            written(
                INSERT_KEYWORD_SQL,
                SqlWrite::InsertKeyword { keyword: keywords[i]@, suggestion_id, rank: i },
            ),
    )
}

/// The provider-specific rows written for a suggestion: the sponsored
/// details for an AMP suggestion, nothing for a Wikipedia one.
pub open spec fn provider_writes(s: DownloadedSuggestion, suggestion_id: int) -> Seq<SqlCall> {
    match s {
        DownloadedSuggestion::Amp(a) => seq![
            written(
                INSERT_AMP_DETAILS_SQL,
                SqlWrite::InsertAmpDetails {
                    suggestion_id,
                    advertiser: a.advertiser@,
                    block_id: a.block_id as int,
                    iab_category: a.iab_category@,
                    impression_url: a.impression_url@,
                    click_url: a.click_url@,
                },
            ),
        ],
        DownloadedSuggestion::Wikipedia(_) => Seq::empty(),
    }
}

/// The calls that store one suggestion of a record, when the work was not
/// interrupted and SQLite accepted every statement, given the id that SQLite
/// assigned to its suggestion row: the interruption check, the suggestion
/// row, the provider-specific rows, the keyword rows.
pub open spec fn suggestion_writes(
    record_id: Seq<char>,
    s: DownloadedSuggestion,
    suggestion_id: i64,
) -> Seq<SqlCall> {
    seq![
        SqlCall::InterruptCheck { interrupted: false },
        SqlCall::InsertSuggestion {
            sql: INSERT_SUGGESTION_SQL@,
            record_id,
            provider: s.spec_provider().code(),
            title: s.details().title@,
            url: s.details().url@,
            icon_id: s.details().icon_id@,
            id: Some(suggestion_id),
        },
    ] + provider_writes(s, suggestion_id as int) + keyword_writes(
        s.details().keywords@,
        suggestion_id as int,
    )
}

/// The successful calls that store a sequence of suggestions, in order, given
/// the ids assigned to their suggestion rows.
pub open spec fn suggestions_writes(
    record_id: Seq<char>,
    suggestions: Seq<DownloadedSuggestion>,
    ids: Seq<i64>,
) -> Seq<SqlCall>
    decreases suggestions.len(),
{
    if suggestions.len() == 0 {
        Seq::empty()
    } else {
        suggestions_writes(record_id, suggestions.drop_last(), ids.drop_last())
            + suggestion_writes(record_id, suggestions.last(), ids.last())
    }
}

/// The calls of an insertion that stopped inside the suggestion at position
/// `j`: all calls for the suggestions before it, the first `k - 1` calls for
/// that suggestion, all answered successfully, and then its `k`-th call,
/// answered by an error (`k >= 2`: the interruption check comes first).
pub open spec fn partial_writes(
    record_id: Seq<char>,
    suggestions: Seq<DownloadedSuggestion>,
    j: int,
    ids: Seq<i64>,
    id: i64,
    k: int,
) -> Seq<SqlCall> {
    let w = suggestion_writes(record_id, suggestions[j], id);
    suggestions_writes(record_id, suggestions.take(j), ids) + w.take(k - 1).push(failed(w[k - 1]))
}

/// The keyword lookup for `keyword`, with its answer.
pub open spec fn lookup_call(keyword: Seq<char>, rows: Option<Seq<KeywordMatch>>) -> SqlCall {
    SqlCall::LookupKeyword { sql: KEYWORD_LOOKUP_SQL@, keyword, rows }
}

/// The query for the keywords of a matched row from its rank on, with its
/// answer.
pub open spec fn keywords_call(row: KeywordMatch, keywords: Option<Seq<String>>) -> SqlCall {
    SqlCall::KeywordsFromRank {
        sql: KEYWORDS_FROM_RANK_SQL@,
        suggestion_id: row.id,
        rank: row.rank,
        keywords,
    }
}

/// The query for the sponsored details of a matched row, with its answer.
pub open spec fn amp_call(row: KeywordMatch, details: Option<AmpDetailsRow>) -> SqlCall {
    SqlCall::AmpDetails { sql: AMP_DETAILS_SQL@, suggestion_id: row.id, details }
}

/// The successful queries made for one matched row: its keywords, and for an
/// AMP row its sponsored details.
pub open spec fn row_calls(row: KeywordMatch, keywords: Seq<String>, amp: AmpDetailsRow) -> Seq<
    SqlCall,
> {
    if SuggestionProvider::from_code(row.provider as int) == Some(SuggestionProvider::Amp) {
        seq![keywords_call(row, Some(keywords)), amp_call(row, Some(amp))]
    } else {
        seq![keywords_call(row, Some(keywords))]
    }
}

/// The successful queries made for a sequence of matched rows, in order.
pub open spec fn rows_calls(
    rows: Seq<KeywordMatch>,
    keywords: Seq<Seq<String>>,
    amps: Seq<AmpDetailsRow>,
) -> Seq<SqlCall>
    decreases rows.len(),
{
    if rows.len() == 0 {
        Seq::empty()
    } else {
        rows_calls(rows.drop_last(), keywords.drop_last(), amps.drop_last()) + row_calls(
            rows.last(),
            keywords.last(),
            amps.last(),
        )
    }
}

/// `s` is the suggestion built for `keyword` from a matched row, the
/// keywords read for it and, for AMP, the sponsored details read for it.
pub open spec fn built_from_row(
    s: Suggestion,
    keyword: Seq<char>,
    row: KeywordMatch,
    keywords: Seq<String>,
    amp: AmpDetailsRow,
) -> bool {
    match SuggestionProvider::from_code(row.provider as int) {
        Some(SuggestionProvider::Amp) => is_amp_suggestion(s, keyword, row, keywords, amp),
        Some(SuggestionProvider::Wikipedia) => is_wikipedia_suggestion(s, keyword, row, keywords),
        None => false,
    }
}

/// A fetch for `keyword` that went from the log `before` to `after` and gave
/// the suggestions `v`: the lookup returned `rows`; for each row, in order,
/// its keywords from its rank on and, for AMP, its details were read; and
/// each suggestion is built from its row and what was read for it.
pub open spec fn fetch_succeeded_with(
    keyword: Seq<char>,
    before: Seq<SqlCall>,
    after: Seq<SqlCall>,
    v: Seq<Suggestion>,
    rows: Seq<KeywordMatch>,
    keywords: Seq<Seq<String>>,
    amps: Seq<AmpDetailsRow>,
) -> bool {
    &&& rows.len() == v.len()
    &&& keywords.len() == v.len()
    &&& amps.len() == v.len()
    &&& after == before + seq![lookup_call(keyword, Some(rows))] + rows_calls(rows, keywords, amps)
    &&& forall|i: int|
        0 <= i < v.len() ==> #[trigger] built_from_row(
            v[i],
            keyword,
            rows[i],
            keywords[i],
            amps[i],
        )
}

/// How a fetch stops at a matched row: its provider code is unknown (no
/// query is made), or the keywords query fails, or, for AMP, the details
/// query fails.
pub open spec fn row_failure(row: KeywordMatch, e: SuggestError, tail: Seq<SqlCall>) -> bool {
    match SuggestionProvider::from_code(row.provider as int) {
        None => tail.len() == 0 && (e matches SuggestError::UnknownProvider(c) && c == row.provider),
        Some(p) => e is Sql && (tail == seq![keywords_call(row, None)] || (p
            == SuggestionProvider::Amp && exists|ks: Seq<String>|
            tail == seq![#[trigger] keywords_call(row, Some(ks)), amp_call(row, None)])),
    }
}

/// A fetch for `keyword` that went from `before` to `after` and stopped with
/// `e` at the matched row at position `j`, after every earlier row went
/// through.
pub open spec fn fetch_failed_with(
    keyword: Seq<char>,
    before: Seq<SqlCall>,
    after: Seq<SqlCall>,
    e: SuggestError,
    rows: Seq<KeywordMatch>,
    keywords: Seq<Seq<String>>,
    amps: Seq<AmpDetailsRow>,
    j: int,
    tail: Seq<SqlCall>,
) -> bool {
    &&& 0 <= j < rows.len()
    &&& keywords.len() == j
    &&& amps.len() == j
    &&& after == before + seq![lookup_call(keyword, Some(rows))] + rows_calls(
        rows.take(j),
        keywords,
        amps,
    ) + tail
    &&& row_failure(rows[j], e, tail)
}

/// A data access object over a connection to the Suggest database. Its log
/// records every call that it has made into SQLite, in order, with the
/// statement, the values bound to it and SQLite's answer.
pub struct SuggestDao<'a> {
    pub conn: &'a rusqlite::Connection,
    pub log: sqlite::SqlLog,
    pub scope: SqlInterruptScope<'a>,
}

impl<'a> SuggestDao<'a> {
    /// The calls that this object has made into SQLite.
    pub open spec fn calls(&self) -> Seq<SqlCall> {
        self.log.calls()
    }

    pub fn new(conn: &'a rusqlite::Connection, scope: SqlInterruptScope<'a>) -> (dao: Self)
        ensures
            dao.conn == conn,
            dao.scope == scope,
            dao.calls() == Seq::<SqlCall>::empty(),
    {
        SuggestDao { conn, log: sqlite::SqlLog::new(), scope }
    }
}


impl<'a> SuggestDao<'a> {
    /// Returns the value stored under a metadata key, if any: the answer of
    /// the metadata query for that key.
    pub fn get_meta(&mut self, key: &str) -> (r: Result<Option<i64>, SuggestError>)
        ensures
            final(self).conn == old(self).conn,
            final(self).scope == old(self).scope,
            final(self).calls() == old(self).calls().push(
                SqlCall::GetMeta {
                    sql: GET_META_SQL@,
                    key: key@,
                    value: match r {
                        Ok(v) => Some(v),
                        Err(_) => None,
                    },
                },
            ),
            r matches Err(e) ==> e is Sql,
    {
        match sqlite::select_meta(self.conn, &mut self.log, GET_META_SQL, key) {
            Ok(v) => Ok(v),
            Err(e) => Err(SuggestError::Sql(e)),
        }
    }

    /// Inserts an icon for a suggestion. Succeeds exactly when SQLite accepts
    /// the insertion.
    pub fn insert_icon(&mut self, icon_id: &str, data: &[u8]) -> (r: Result<(), SuggestError>)
        ensures
            final(self).conn == old(self).conn,
            r matches Err(e) ==> e is Sql,
            final(self).scope == old(self).scope,
            final(self).calls() == old(self).calls().push(
                SqlCall::Write {
                    sql: INSERT_ICON_SQL@,
                    stmt: SqlWrite::InsertIcon { id: icon_id@, data: data@ },
                    ok: r is Ok,
                },
            ),
    {
        match sqlite::insert_icon_row(self.conn, &mut self.log, INSERT_ICON_SQL, icon_id, data) {
            Ok(_) => Ok(()),
            Err(e) => Err(SuggestError::Sql(e)),
        }
    }

    /// Deletes all suggestions of a Remote Settings record. Succeeds exactly
    /// when SQLite accepts the deletion.
    pub fn drop_suggestions(&mut self, record_id: &SuggestRecordId) -> (r: Result<(), SuggestError>)
        ensures
            final(self).conn == old(self).conn,
            r matches Err(e) ==> e is Sql,
            final(self).scope == old(self).scope,
            final(self).calls() == old(self).calls().push(
                SqlCall::Write {
                    sql: DROP_SUGGESTIONS_SQL@,
                    stmt: SqlWrite::DropSuggestions { record_id: record_id.0@ },
                    ok: r is Ok,
                },
            ),
    {
        match sqlite::delete_suggestions_rows(
            self.conn,
            &mut self.log,
            DROP_SUGGESTIONS_SQL,
            record_id.as_str(),
        ) {
            Ok(_) => Ok(()),
            Err(e) => Err(SuggestError::Sql(e)),
        }
    }

    /// Deletes the icon with the given id. Succeeds exactly when SQLite
    /// accepts the deletion.
    pub fn drop_icon(&mut self, icon_id: &str) -> (r: Result<(), SuggestError>)
        ensures
            final(self).conn == old(self).conn,
            r matches Err(e) ==> e is Sql,
            final(self).scope == old(self).scope,
            final(self).calls() == old(self).calls().push(
                SqlCall::Write {
                    sql: DROP_ICON_SQL@,
                    stmt: SqlWrite::DropIcon { id: icon_id@ },
                    ok: r is Ok,
                },
            ),
    {
        match sqlite::delete_icon_row(self.conn, &mut self.log, DROP_ICON_SQL, icon_id) {
            Ok(_) => Ok(()),
            Err(e) => Err(SuggestError::Sql(e)),
        }
    }

    /// Removes all suggestions, icons and metadata. Succeeds exactly when
    /// SQLite accepts the three deletions.
    pub fn clear(&mut self) -> (r: Result<(), SuggestError>)
        ensures
            final(self).conn == old(self).conn,
            r matches Err(e) ==> e is Sql,
            final(self).scope == old(self).scope,
            final(self).calls() == old(self).calls().push(
                SqlCall::Write { sql: CLEAR_SQL@, stmt: SqlWrite::Batch, ok: r is Ok },
            ),
    {
        match sqlite::execute_batch(self.conn, &mut self.log, CLEAR_SQL) {
            Ok(()) => Ok(()),
            Err(e) => Err(SuggestError::Sql(e)),
        }
    }

    /// Sets the value of a metadata key. Succeeds exactly when SQLite accepts
    /// the replacement.
    pub fn put_meta(&mut self, key: &str, value: i64) -> (r: Result<(), SuggestError>)
        ensures
            final(self).conn == old(self).conn,
            r matches Err(e) ==> e is Sql,
            final(self).scope == old(self).scope,
            final(self).calls() == old(self).calls().push(
                SqlCall::Write {
                    sql: PUT_META_SQL@,
                    stmt: SqlWrite::PutMeta { key: key@, value: value as int },
                    ok: r is Ok,
                },
            ),
    {
        match sqlite::replace_meta(self.conn, &mut self.log, PUT_META_SQL, key, value) {
            Ok(_) => Ok(()),
            Err(e) => Err(SuggestError::Sql(e)),
        }
    }
}


impl<'a> SuggestDao<'a> {
    /// Stores the suggestions of a Remote Settings record: for each one, in
    /// order, its suggestion row, then its sponsored details if it is an AMP
    /// suggestion, then one keyword row per keyword, ranked by position.
    /// Before each suggestion, checks whether the work has been interrupted,
    /// and stops with `Interrupted` if it has. Stops at the first statement that SQLite refuses and
    /// returns its error; succeeds when SQLite accepts every statement.
    pub fn insert_suggestions(
        &mut self,
        record_id: &SuggestRecordId,
        suggestions: &[DownloadedSuggestion],
    ) -> (r: Result<(), SuggestError>)
        requires
            forall|j: int|
                0 <= j < suggestions@.len() ==> #[trigger] suggestions@[j].details().keywords@.len()
                    <= i64::MAX,
        ensures
            final(self).conn == old(self).conn,
            r is Ok ==> exists|ids: Seq<i64>|
                #![trigger suggestions_writes(record_id.0@, suggestions@, ids)]
                ids.len() == suggestions@.len() && final(self).calls() == old(self).calls()
                    + suggestions_writes(record_id.0@, suggestions@, ids),
            final(self).scope == old(self).scope,
            r matches Err(e) ==> e is Sql || e is Interrupted,
            r matches Err(SuggestError::Sql(_)) ==> exists|j: int, ids: Seq<i64>, id: i64, k: int|
                {
                    &&& 0 <= j < suggestions@.len()
                    &&& ids.len() == j
                    &&& 2 <= k <= suggestion_writes(record_id.0@, suggestions@[j], id).len()
                    &&& final(self).calls() == old(self).calls()
                        + #[trigger] partial_writes(record_id.0@, suggestions@, j, ids, id, k)
                },
            r matches Err(SuggestError::Interrupted) ==> exists|j: int, ids: Seq<i64>|
                {
                    &&& 0 <= j < suggestions@.len()
                    &&& ids.len() == j
                    &&& final(self).calls() == (old(self).calls() + #[trigger] suggestions_writes(
                        record_id.0@,
                        suggestions@.take(j),
                        ids,
                    )).push(SqlCall::InterruptCheck { interrupted: true })
                },
    {
        let ghost start = self.calls();
        let ghost rec = record_id.0@;
        let ghost mut ids: Seq<i64> = Seq::empty();
        let mut i: usize = 0;
        while i < suggestions.len()
            invariant
                i <= suggestions.len(),
                ids.len() == i,
                rec == record_id.0@,
                start == old(self).calls(),
                forall|j: int|
                    0 <= j < suggestions@.len() ==> #[trigger] suggestions@[j].details().keywords@.len()
                        <= i64::MAX,
                self.conn == old(self).conn,
                self.scope == old(self).scope,
                self.calls() == start + suggestions_writes(rec, suggestions@.take(i as int), ids),
            decreases suggestions.len() - i,
        {
            let ghost plan_before = suggestions_writes(rec, suggestions@.take(i as int), ids);
            if sqlite::check_interrupt(&mut self.log, &self.scope) {
                assert(self.calls() =~= (start + plan_before).push(
                    SqlCall::InterruptCheck { interrupted: true },
                ));
                return Err(SuggestError::Interrupted);
            }
            let suggestion = &suggestions[i];
            let details = suggestion.common_details();
            let provider = suggestion.provider();
            let inserted = sqlite::insert_suggestion_row(
                self.conn,
                &mut self.log,
                INSERT_SUGGESTION_SQL,
                record_id.as_str(),
                provider.to_sql_code(),
                details.title.as_str(),
                details.url.as_str(),
                details.icon_id.as_str(),
            );
            let id = match inserted {
                Ok(id) => id,
                Err(e) => {
                    proof {
                        let w = suggestion_writes(rec, suggestions@[i as int], 0);
                        assert(w.take(1).push(failed(w[1])) =~= seq![w[0], failed(w[1])]);
                        assert(self.calls() =~= start + partial_writes(rec, suggestions@, i as int, ids, 0, 2));
                    }
                    return Err(SuggestError::Sql(e));
                }
            };
            let ghost w = suggestion_writes(rec, suggestions@[i as int], id);
            let ghost pw = provider_writes(suggestions@[i as int], id as int);
            assert(self.calls() =~= start + plan_before + w.take(2));
            match suggestion {
                DownloadedSuggestion::Amp(amp) => {
                    let res = sqlite::insert_amp_details_row(
                        self.conn,
                        &mut self.log,
                        INSERT_AMP_DETAILS_SQL,
                        id,
                        amp.advertiser.as_str(),
                        amp.block_id,
                        amp.iab_category.as_str(),
                        amp.impression_url.as_str(),
                        amp.click_url.as_str(),
                    );
                    if let Err(e) = res {
                        assert(self.calls() =~= start + partial_writes(rec, suggestions@, i as int, ids, id, 3));
                        return Err(SuggestError::Sql(e));
                    }
                    assert(self.calls() =~= start + plan_before + w.take(3));
                }
                DownloadedSuggestion::Wikipedia(_) => {}
            }
            let ghost head_len: int = 2 + pw.len() as int;
            assert(self.calls() =~= start + plan_before + w.take(head_len));
            let mut k: usize = 0;
            while k < details.keywords.len()
                invariant
                    k <= details.keywords.len(),
                    *details == suggestions@[i as int].details(),
                    i < suggestions.len(),
                    ids.len() == i,
                    details.keywords@.len() <= i64::MAX,
                    plan_before == suggestions_writes(rec, suggestions@.take(i as int), ids),
                    rec == record_id.0@,
                    start == old(self).calls(),
                    self.conn == old(self).conn,
                    self.scope == old(self).scope,
                    w == suggestion_writes(rec, suggestions@[i as int], id),
                    head_len == 2 + provider_writes(suggestions@[i as int], id as int).len(),
                    w.len() == head_len + details.keywords.len(),
                    self.calls() == start + plan_before + w.take(head_len + k),
                decreases details.keywords.len() - k,
            {
                let res = sqlite::insert_keyword_row(
                    self.conn,
                    &mut self.log,
                    INSERT_KEYWORD_SQL,
                    details.keywords[k].as_str(),
                    id,
                    k as i64,
                );
                assert(w[head_len + k] == written(
                    INSERT_KEYWORD_SQL,
                    SqlWrite::InsertKeyword {
                        keyword: details.keywords@[k as int]@,
                        suggestion_id: id as int,
                        rank: k as int,
                    },
                ));
                if let Err(e) = res {
                    assert(self.calls() =~= start + partial_writes(rec, suggestions@, i as int, ids, id, head_len + k + 1));
                    return Err(SuggestError::Sql(e));
                }
                assert(w.take(head_len + k + 1) =~= w.take(head_len + k).push(w[head_len + k]));
                k = k + 1;
            }
            proof {
                assert(w.take(w.len() as int) =~= w);
                let next = suggestions@.take(i + 1);
                assert(next.drop_last() =~= suggestions@.take(i as int));
                assert(ids.push(id).drop_last() =~= ids);
                assert(next.last() == suggestions@[i as int]);
                assert(suggestions_writes(rec, next, ids.push(id)) == plan_before + w);
                assert(self.calls() =~= start + suggestions_writes(rec, next, ids.push(id)));
                ids = ids.push(id);
            }
            i = i + 1;
        }
        assert(suggestions@.take(i as int) =~= suggestions@);
        Ok(())
    }
}


impl<'a> SuggestDao<'a> {
    /// Fetches the suggestions stored for a keyword. The keyword lookup finds
    /// at most one row; for each row, in order, the keywords of its
    /// suggestion from the matched rank on are read, and for an AMP row its
    /// sponsored details, and the suggestion is built from them. Stops with
    /// an error at the first query that SQLite refuses, or at a row whose
    /// provider code is unknown.
    pub fn fetch_by_keyword(&mut self, keyword: &str) -> (r: Result<Vec<Suggestion>, SuggestError>)
        ensures
            final(self).conn == old(self).conn,
            final(self).scope == old(self).scope,
            r matches Ok(v) ==> v@.len() <= 1 && exists|
                rows: Seq<KeywordMatch>,
                keywords: Seq<Seq<String>>,
                amps: Seq<AmpDetailsRow>,
            |
                #[trigger] fetch_succeeded_with(
                    keyword@,
                    old(self).calls(),
                    final(self).calls(),
                    v@,
                    rows,
                    keywords,
                    amps,
                ),
            r matches Err(e) ==> (e is Sql && final(self).calls() == old(self).calls().push(
                lookup_call(keyword@, None),
            )) || exists|
                rows: Seq<KeywordMatch>,
                keywords: Seq<Seq<String>>,
                amps: Seq<AmpDetailsRow>,
                j: int,
                tail: Seq<SqlCall>,
            |
                #[trigger] fetch_failed_with(
                    keyword@,
                    old(self).calls(),
                    final(self).calls(),
                    e,
                    rows,
                    keywords,
                    amps,
                    j,
                    tail,
                ),
    {
        let ghost start = self.calls();
        let rows = match sqlite::select_keyword_matches(
            self.conn,
            &mut self.log,
            KEYWORD_LOOKUP_SQL,
            keyword,
        ) {
            Ok(rows) => rows,
            Err(e) => return Err(SuggestError::Sql(e)),
        };
        let ghost all_rows = rows@;
        let ghost head = start + seq![lookup_call(keyword@, Some(all_rows))];
        let mut rest = rows;
        let mut out: Vec<Suggestion> = Vec::new();
        let ghost mut kss: Seq<Seq<String>> = Seq::empty();
        let ghost mut amps: Seq<AmpDetailsRow> = Seq::empty();
        let ghost mut i: int = 0;
        assert(all_rows.take(0) =~= Seq::<KeywordMatch>::empty());
        assert(self.calls() =~= head + rows_calls(all_rows.take(0), kss, amps));
        while rest.len() > 0
            invariant
                all_rows.len() <= 1,
                0 <= i <= all_rows.len(),
                rest@ == all_rows.skip(i),
                out@.len() == i,
                kss.len() == i,
                amps.len() == i,
                self.conn == old(self).conn,
                self.scope == old(self).scope,
                start == old(self).calls(),
                head == start + seq![lookup_call(keyword@, Some(all_rows))],
                self.calls() == head + rows_calls(all_rows.take(i), kss, amps),
                forall|m: int|
                    0 <= m < i ==> #[trigger] built_from_row(
                        out@[m],
                        keyword@,
                        all_rows[m],
                        kss[m],
                        amps[m],
                    ),
            decreases rest.len(),
        {
            let ghost before = self.calls();
            let row = rest.remove(0);
            assert(row == all_rows[i]);
            let ghost row_v = row;
            let provider = match SuggestionProvider::from_sql_code(row.provider) {
                Some(p) => p,
                None => {
                    proof {
                        let tail = Seq::<SqlCall>::empty();
                        assert(self.calls() =~= head + rows_calls(all_rows.take(i), kss, amps) + tail);
                        assert(fetch_failed_with(
                            keyword@,
                            start,
                            self.calls(),
                            SuggestError::UnknownProvider(row.provider),
                            all_rows,
                            kss,
                            amps,
                            i,
                            tail,
                        ));
                    }
                    return Err(SuggestError::UnknownProvider(row.provider));
                },
            };
            let keywords = match sqlite::select_keywords_from_rank(
                self.conn,
                &mut self.log,
                KEYWORDS_FROM_RANK_SQL,
                row.id,
                row.rank,
            ) {
                Ok(k) => k,
                Err(e) => {
                    proof {
                        let tail = seq![keywords_call(row_v, None)];
                        assert(self.calls() =~= head + rows_calls(all_rows.take(i), kss, amps) + tail);
                        assert(fetch_failed_with(
                            keyword@,
                            start,
                            self.calls(),
                            SuggestError::Sql(e),
                            all_rows,
                            kss,
                            amps,
                            i,
                            tail,
                        ));
                    }
                    return Err(SuggestError::Sql(e));
                },
            };
            let ghost mut amp_g: AmpDetailsRow = vstd::pervasive::arbitrary();
            let suggestion = match provider {
                SuggestionProvider::Amp => {
                    let amp = match sqlite::select_amp_details(
                        self.conn,
                        &mut self.log,
                        AMP_DETAILS_SQL,
                        row.id,
                    ) {
                        Ok(a) => a,
                        Err(e) => {
                            proof {
                                let tail = seq![
                                    keywords_call(row_v, Some(keywords@)),
                                    amp_call(row_v, None),
                                ];
                                assert(self.calls() =~= head + rows_calls(all_rows.take(i), kss, amps) + tail);
                                assert(fetch_failed_with(
                                    keyword@,
                                    start,
                                    self.calls(),
                                    SuggestError::Sql(e),
                                    all_rows,
                                    kss,
                                    amps,
                                    i,
                                    tail,
                                ));
                            }
                            return Err(SuggestError::Sql(e));
                        },
                    };
                    proof {
                        amp_g = amp;
                    }
                    amp_suggestion(keyword, row, keywords.as_slice(), amp)
                },
                SuggestionProvider::Wikipedia => wikipedia_suggestion(
                    keyword,
                    row,
                    keywords.as_slice(),
                ),
            };
            assert(built_from_row(suggestion, keyword@, row_v, keywords@, amp_g));
            assert(self.calls() =~= before + row_calls(row_v, keywords@, amp_g));
            out.push(suggestion);
            proof {
                let next = all_rows.take(i + 1);
                assert(next.drop_last() =~= all_rows.take(i));
                assert(kss.push(keywords@).drop_last() =~= kss);
                assert(amps.push(amp_g).drop_last() =~= amps);
                assert(rows_calls(next, kss.push(keywords@), amps.push(amp_g)) == rows_calls(
                    all_rows.take(i),
                    kss,
                    amps,
                ) + row_calls(row_v, keywords@, amp_g));
                assert(self.calls() =~= head + rows_calls(next, kss.push(keywords@), amps.push(amp_g)));
                kss = kss.push(keywords@);
                amps = amps.push(amp_g);
                i = i + 1;
                assert(rest@ =~= all_rows.skip(i));
            }
        }
        proof {
            assert(all_rows.skip(i).len() == 0);
            assert(all_rows.take(i) =~= all_rows);
            assert(fetch_succeeded_with(keyword@, start, self.calls(), out@, all_rows, kss, amps));
        }
        Ok(out)
    }
}


/// How a transaction that SQLite began ended, given what `op` returned: when
/// `op` failed, its error, with no commit; when it succeeded, the commit,
/// and its value if SQLite accepted the commit, the commit's error if not.
pub open spec fn transaction_outcome<T>(
    before: Seq<SqlCall>,
    after: Seq<SqlCall>,
    op_result: Result<T, SuggestError>,
    r: Result<T, SuggestError>,
) -> bool {
    let begun = before.push(SqlCall::Begin { ok: true });
    match op_result {
        Err(_) => after == begun && r == op_result,
        Ok(v) => (after == begun.push(SqlCall::Commit { ok: true }) && r == Ok::<T, SuggestError>(v)) || (
        after == begun.push(SqlCall::Commit { ok: false }) && (r matches Err(e) && e is Sql)),
    }
}

/// Accesses the Suggest database in a transaction for reading and writing:
/// begins a transaction on `conn`, runs `op` on a data access object over it
/// (interruptible through `counter`), and commits only when `op` succeeds.
/// When SQLite refuses to begin, `op` is not run and that error comes back;
/// when `op` fails, its error comes back and nothing is committed (the
/// transaction is rolled back when dropped); otherwise the commit's answer
/// decides between `op`'s value and the commit's error.
pub fn write_in_transaction<T, F>(
    conn: &mut rusqlite::Connection,
    log: &mut sqlite::SqlLog,
    counter: &std::sync::atomic::AtomicUsize,
    op: F,
) -> (r: Result<T, SuggestError>) where F: FnOnce(&mut SuggestDao) -> Result<T, SuggestError>
    requires
        forall|d: &mut SuggestDao| #[trigger] call_requires(op, (d,)),
    ensures
        (final(log).calls() == old(log).calls().push(SqlCall::Begin { ok: false }) && (r matches Err(
            e,
        ) && e is Sql)) || exists|d: &mut SuggestDao, op_result: Result<T, SuggestError>|
            #[trigger] call_ensures(op, (d,), op_result) && transaction_outcome(
                old(log).calls(),
                final(log).calls(),
                op_result,
                r,
            ),
{
    let scope = SqlInterruptScope::new(counter);
    let tx = match sqlite::begin_transaction(conn, log) {
        Ok(tx) => tx,
        Err(e) => return Err(SuggestError::Sql(e)),
    };
    let op_result = {
        let mut dao = SuggestDao::new(sqlite::transaction_connection(&tx), scope);
        op(&mut dao)
    };
    match op_result {
        Ok(v) => match sqlite::commit_transaction(tx, log) {
            Ok(()) => Ok(v),
            Err(e) => Err(SuggestError::Sql(e)),
        },
        Err(e) => Err(e),
    }
}


/// Whatever its provider, a suggestion built from a matched row keeps the
/// row's title, url and icon, has the provider that the row's code names,
/// and takes its full keyword from the keywords read for it.
pub proof fn law_built_suggestion_keeps_row(
    s: Suggestion,
    keyword: Seq<char>,
    row: KeywordMatch,
    keywords: Seq<String>,
    amp: AmpDetailsRow,
)
    requires
        built_from_row(s, keyword, row, keywords, amp),
    ensures
        s.title@ == row.title@,
        s.url@ == row.url@,
        s.icon == row.icon,
        (row.provider == 1 && s.provider == SuggestionProvider::Amp) || (row.provider == 2
            && s.provider == SuggestionProvider::Wikipedia),
        s.full_keyword@ == spec_full_keyword(keyword, string_views(keywords)),
{
}

/// For each suggestion, whatever its provider, the suggestion row it writes
/// is bound to the record id, the provider's stored code, and the title, url
/// and icon id of the downloaded suggestion; the row comes right after the
/// interruption check; the AMP details follow it for an AMP suggestion; and
/// keyword `m` is written with rank `m`.
pub proof fn law_suggestion_writes_fields(record_id: Seq<char>, s: DownloadedSuggestion, id: i64)
    ensures
        ({
            let w = suggestion_writes(record_id, s, id);
            let d = match s {
                DownloadedSuggestion::Amp(a) => a.common_details,
                DownloadedSuggestion::Wikipedia(x) => x.common_details,
            };
            let head: int = match s {
                DownloadedSuggestion::Amp(_) => 3,
                DownloadedSuggestion::Wikipedia(_) => 2,
            };
            &&& w[0] == SqlCall::InterruptCheck { interrupted: false }
            &&& w[1] == SqlCall::InsertSuggestion {
                sql: INSERT_SUGGESTION_SQL@,
                record_id,
                provider: match s {
                    DownloadedSuggestion::Amp(_) => 1int,
                    DownloadedSuggestion::Wikipedia(_) => 2int,
                },
                title: d.title@,
                url: d.url@,
                icon_id: d.icon_id@,
                id: Some(id),
            }
            &&& s matches DownloadedSuggestion::Amp(a) ==> w[2] == SqlCall::Write {
                sql: INSERT_AMP_DETAILS_SQL@,
                stmt: SqlWrite::InsertAmpDetails {
                    suggestion_id: id as int,
                    advertiser: a.advertiser@,
                    block_id: a.block_id as int,
                    iab_category: a.iab_category@,
                    impression_url: a.impression_url@,
                    click_url: a.click_url@,
                },
                ok: true,
            }
            &&& w.len() == head + d.keywords@.len()
            &&& forall|m: int|
                0 <= m < d.keywords@.len() ==> #[trigger] w[head + m] == SqlCall::Write {
                    sql: INSERT_KEYWORD_SQL@,
                    stmt: SqlWrite::InsertKeyword {
                        keyword: d.keywords@[m]@,
                        suggestion_id: id as int,
                        rank: m,
                    },
                    ok: true,
                }
        }),
{
}

/// `all` holds `block` from position `p` on.
pub open spec fn holds_block_at(all: Seq<SqlCall>, block: Seq<SqlCall>, p: int) -> bool {
    0 <= p && p + block.len() <= all.len() && all.subrange(p, p + block.len()) == block
}

/// The calls for a sequence of suggestions hold, as a block, the calls for
/// each one of them, with the id assigned to it.
pub proof fn law_suggestions_writes_hold_each(
    record_id: Seq<char>,
    suggestions: Seq<DownloadedSuggestion>,
    ids: Seq<i64>,
    j: int,
)
    requires
        ids.len() == suggestions.len(),
        0 <= j < suggestions.len(),
    ensures
        exists|p: int|
            #[trigger] holds_block_at(
                suggestions_writes(record_id, suggestions, ids),
                suggestion_writes(record_id, suggestions[j], ids[j]),
                p,
            ),
    decreases suggestions.len(),
{
    let all = suggestions_writes(record_id, suggestions, ids);
    let prev = suggestions_writes(record_id, suggestions.drop_last(), ids.drop_last());
    let n = suggestions.len() - 1;
    if j == n {
        let w = suggestion_writes(record_id, suggestions[j], ids[j]);
        assert(all.subrange(prev.len() as int, (prev.len() + w.len()) as int) =~= w);
        assert(holds_block_at(all, w, prev.len() as int));
    } else {
        law_suggestions_writes_hold_each(record_id, suggestions.drop_last(), ids.drop_last(), j);
        let w = suggestion_writes(record_id, suggestions[j], ids[j]);
        assert(suggestions.drop_last()[j] == suggestions[j]);
        assert(ids.drop_last()[j] == ids[j]);
        let p = choose|p: int| #[trigger] holds_block_at(prev, w, p);
        assert(all.subrange(p, p + w.len()) =~= prev.subrange(p, p + w.len()));
        assert(holds_block_at(all, w, p));
    }
}

proof fn lemma_rows_calls_hold_keywords_query(
    rows: Seq<KeywordMatch>,
    keywords: Seq<Seq<String>>,
    amps: Seq<AmpDetailsRow>,
    i: int,
)
    requires
        rows.len() == keywords.len(),
        rows.len() == amps.len(),
        0 <= i < rows.len(),
    ensures
        rows_calls(rows, keywords, amps).contains(
            SqlCall::KeywordsFromRank {
                sql: KEYWORDS_FROM_RANK_SQL@,
                suggestion_id: rows[i].id,
                rank: rows[i].rank,
                keywords: Some(keywords[i]),
            },
        ),
    decreases rows.len(),
{
    let all = rows_calls(rows, keywords, amps);
    let prev = rows_calls(rows.drop_last(), keywords.drop_last(), amps.drop_last());
    let n = rows.len() - 1;
    if i == n {
        assert(all[prev.len() as int] == row_calls(rows[n], keywords[n], amps[n])[0]);
    } else {
        lemma_rows_calls_hold_keywords_query(rows.drop_last(), keywords.drop_last(), amps.drop_last(), i);
        assert(rows.drop_last()[i] == rows[i]);
        assert(keywords.drop_last()[i] == keywords[i]);
        let e = SqlCall::KeywordsFromRank {
            sql: KEYWORDS_FROM_RANK_SQL@,
            suggestion_id: rows[i].id,
            rank: rows[i].rank,
            keywords: Some(keywords[i]),
        };
        let p = choose|p: int| 0 <= p < prev.len() && prev[p] == e;
        assert(all[p] == e);
    }
}

/// A fetch that succeeded looked up exactly the keyword, and for each
/// suggestion it gave, read the keywords of the matched row's suggestion
/// from the matched row's rank on: the suggestion's full keyword is
/// computed from those keywords, and it keeps the row's title, url and icon.
pub proof fn law_fetched_suggestion_from_its_row(
    keyword: Seq<char>,
    before: Seq<SqlCall>,
    after: Seq<SqlCall>,
    v: Seq<Suggestion>,
    rows: Seq<KeywordMatch>,
    keywords: Seq<Seq<String>>,
    amps: Seq<AmpDetailsRow>,
    i: int,
)
    requires
        fetch_succeeded_with(keyword, before, after, v, rows, keywords, amps),
        0 <= i < v.len(),
    ensures
        after[before.len() as int] == (SqlCall::LookupKeyword {
            sql: KEYWORD_LOOKUP_SQL@,
            keyword,
            rows: Some(rows),
        }),
        after.contains(
            SqlCall::KeywordsFromRank {
                sql: KEYWORDS_FROM_RANK_SQL@,
                suggestion_id: rows[i].id,
                rank: rows[i].rank,
                keywords: Some(keywords[i]),
            },
        ),
        v[i].full_keyword@ == spec_full_keyword(keyword, string_views(keywords[i])),
        v[i].title@ == rows[i].title@,
        v[i].url@ == rows[i].url@,
        v[i].icon == rows[i].icon,
{
    assert(built_from_row(v[i], keyword, rows[i], keywords[i], amps[i]));
    law_built_suggestion_keeps_row(v[i], keyword, rows[i], keywords[i], amps[i]);
    lemma_rows_calls_hold_keywords_query(rows, keywords, amps, i);
    let rc = rows_calls(rows, keywords, amps);
    let head = before + seq![lookup_call(keyword, Some(rows))];
    let e = SqlCall::KeywordsFromRank {
        sql: KEYWORDS_FROM_RANK_SQL@,
        suggestion_id: rows[i].id,
        rank: rows[i].rank,
        keywords: Some(keywords[i]),
    };
    let p = choose|p: int| 0 <= p < rc.len() && rc[p] == e;
    assert(after[head.len() + p] == e);
}

} // verus!
