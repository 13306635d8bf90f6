use remote_settings::suggest::db::{
    is_nonsponsored_iab_category, ConnectionType, SuggestDao, SuggestError, LAST_INGEST_META_KEY,
};
use remote_settings::suggest::{
    DownloadedAmpSuggestion, DownloadedSuggestion, DownloadedSuggestionCommonDetails,
    DownloadedWikipediaSuggestion, SuggestRecordId, SuggestionProvider,
};
use remote_settings::suggest::interrupt::SqlInterruptScope;
use rusqlite::{Connection, OpenFlags};
use std::sync::atomic::{AtomicUsize, Ordering};

fn open_db() -> Connection {
    let conn = Connection::open_in_memory().unwrap();
    conn.execute_batch(
        "PRAGMA foreign_keys = ON;
         CREATE TABLE meta(key TEXT PRIMARY KEY, value NOT NULL) WITHOUT ROWID;
         CREATE TABLE suggestions(
             id INTEGER PRIMARY KEY,
             record_id TEXT NOT NULL,
             provider INTEGER NOT NULL,
             title TEXT NOT NULL,
             url TEXT NOT NULL,
             icon_id TEXT
         );
         CREATE TABLE keywords(
             keyword TEXT NOT NULL,
             suggestion_id INTEGER NOT NULL REFERENCES suggestions(id) ON DELETE CASCADE,
             rank INTEGER NOT NULL,
             PRIMARY KEY (keyword, suggestion_id)
         ) WITHOUT ROWID;
         CREATE TABLE amp_custom_details(
             suggestion_id INTEGER PRIMARY KEY REFERENCES suggestions(id) ON DELETE CASCADE,
             advertiser TEXT NOT NULL,
             block_id INTEGER NOT NULL,
             iab_category TEXT NOT NULL,
             impression_url TEXT NOT NULL,
             click_url TEXT NOT NULL
         );
         CREATE TABLE icons(id TEXT PRIMARY KEY, data BLOB NOT NULL) WITHOUT ROWID;",
    )
    .unwrap();
    conn
}

fn details(keywords: &[&str], title: &str, icon_id: &str) -> DownloadedSuggestionCommonDetails {
    DownloadedSuggestionCommonDetails {
        keywords: keywords.iter().map(|k| k.to_string()).collect(),
        title: title.to_string(),
        url: format!("https://example.com/{}", title),
        icon_id: icon_id.to_string(),
    }
}

fn amp(keywords: &[&str], title: &str, iab_category: &str) -> DownloadedSuggestion {
    DownloadedSuggestion::Amp(DownloadedAmpSuggestion {
        common_details: details(keywords, title, "icon-1"),
        advertiser: "Los Pollos Hermanos".to_string(),
        block_id: 7,
        iab_category: iab_category.to_string(),
        impression_url: "https://example.com/impression".to_string(),
        click_url: "https://example.com/click".to_string(),
    })
}

fn wikipedia(keywords: &[&str], title: &str) -> DownloadedSuggestion {
    DownloadedSuggestion::Wikipedia(DownloadedWikipediaSuggestion {
        common_details: details(keywords, title, "icon-2"),
    })
}

#[test]
fn insert_and_fetch_amp() {
    let conn = open_db();
    let counter = AtomicUsize::new(0);
    let mut dao = SuggestDao::new(&conn, SqlInterruptScope::new(&counter));
    dao.insert_icon("icon-1", &[1, 2, 3]).unwrap();
    let record = SuggestRecordId::new("record-1".to_string());
    let sugs = vec![amp(&["la", "los", "los p", "los pollos hermanos"], "Los Pollos", "22 - Shopping")];
    dao.insert_suggestions(&record, &sugs).unwrap();

    let found = dao.fetch_by_keyword("los").unwrap();
    assert_eq!(found.len(), 1);
    let s = &found[0];
    assert_eq!(s.provider, SuggestionProvider::Amp);
    assert_eq!(s.block_id, 7);
    assert_eq!(s.advertiser, "Los Pollos Hermanos");
    assert_eq!(s.iab_category, "22 - Shopping");
    assert!(s.is_sponsored);
    assert_eq!(s.title, "Los Pollos");
    assert_eq!(s.url, "https://example.com/Los Pollos");
    assert_eq!(s.full_keyword, "los");
    assert_eq!(s.icon, Some(vec![1, 2, 3]));
    assert_eq!(s.impression_url.as_deref(), Some("https://example.com/impression"));
    assert_eq!(s.click_url.as_deref(), Some("https://example.com/click"));

    let found = dao.fetch_by_keyword("los p").unwrap();
    assert_eq!(found[0].full_keyword, "los pollos");
}

#[test]
fn keyword_ranks_are_positions() {
    let conn = open_db();
    let counter = AtomicUsize::new(0);
    let mut dao = SuggestDao::new(&conn, SqlInterruptScope::new(&counter));
    let record = SuggestRecordId::new("r".to_string());
    dao.insert_suggestions(&record, &[wikipedia(&["a", "b", "c"], "T")]).unwrap();
    let ranks: Vec<(String, i64)> = conn
        .prepare("SELECT keyword, rank FROM keywords ORDER BY rank")
        .unwrap()
        .query_map([], |row| Ok((row.get(0)?, row.get(1)?)))
        .unwrap()
        .map(|r| r.unwrap())
        .collect();
    assert_eq!(ranks, vec![("a".to_string(), 0), ("b".to_string(), 1), ("c".to_string(), 2)]);
    let provider: i64 = conn.query_row("SELECT provider FROM suggestions", [], |r| r.get(0)).unwrap();
    assert_eq!(provider, 2);
}

#[test]
fn nonsponsored_amp_category() {
    let conn = open_db();
    let counter = AtomicUsize::new(0);
    let mut dao = SuggestDao::new(&conn, SqlInterruptScope::new(&counter));
    let record = SuggestRecordId::new("r".to_string());
    dao.insert_suggestions(&record, &[amp(&["edu"], "Edu", "5 - Education")]).unwrap();
    let found = dao.fetch_by_keyword("edu").unwrap();
    assert!(!found[0].is_sponsored);
}

#[test]
fn insert_and_fetch_wikipedia() {
    let conn = open_db();
    let counter = AtomicUsize::new(0);
    let mut dao = SuggestDao::new(&conn, SqlInterruptScope::new(&counter));
    let record = SuggestRecordId::new("record-2".to_string());
    dao.insert_suggestions(&record, &[wikipedia(&["cal", "california"], "California")]).unwrap();
    let found = dao.fetch_by_keyword("cal").unwrap();
    assert_eq!(found.len(), 1);
    let s = &found[0];
    assert_eq!(s.provider, SuggestionProvider::Wikipedia);
    assert_eq!(s.block_id, 0);
    assert_eq!(s.advertiser, "Wikipedia");
    assert_eq!(s.iab_category, "5 - Education");
    assert!(!s.is_sponsored);
    assert_eq!(s.full_keyword, "california");
    assert_eq!(s.icon, None);
    assert_eq!(s.impression_url, None);
    assert_eq!(s.click_url, None);
}

#[test]
fn fetch_unknown_keyword_is_empty() {
    let conn = open_db();
    let counter = AtomicUsize::new(0);
    let mut dao = SuggestDao::new(&conn, SqlInterruptScope::new(&counter));
    assert!(dao.fetch_by_keyword("nothing").unwrap().is_empty());
}

#[test]
fn drop_suggestions_removes_them() {
    let conn = open_db();
    let counter = AtomicUsize::new(0);
    let mut dao = SuggestDao::new(&conn, SqlInterruptScope::new(&counter));
    let record = SuggestRecordId::new("record-3".to_string());
    dao.insert_suggestions(&record, &[wikipedia(&["x"], "X")]).unwrap();
    assert_eq!(dao.fetch_by_keyword("x").unwrap().len(), 1);
    dao.drop_suggestions(&record).unwrap();
    assert!(dao.fetch_by_keyword("x").unwrap().is_empty());
}

#[test]
fn drop_icon_removes_it() {
    let conn = open_db();
    let counter = AtomicUsize::new(0);
    let mut dao = SuggestDao::new(&conn, SqlInterruptScope::new(&counter));
    dao.insert_icon("icon-1", &[9]).unwrap();
    let record = SuggestRecordId::new("r".to_string());
    dao.insert_suggestions(&record, &[amp(&["k"], "K", "1")]).unwrap();
    assert_eq!(dao.fetch_by_keyword("k").unwrap()[0].icon, Some(vec![9]));
    dao.drop_icon("icon-1").unwrap();
    assert_eq!(dao.fetch_by_keyword("k").unwrap()[0].icon, None);
}

#[test]
fn meta_round_trip_and_clear() {
    let conn = open_db();
    let counter = AtomicUsize::new(0);
    let mut dao = SuggestDao::new(&conn, SqlInterruptScope::new(&counter));
    assert_eq!(dao.get_meta(LAST_INGEST_META_KEY).unwrap(), None);
    dao.put_meta(LAST_INGEST_META_KEY, 1234).unwrap();
    assert_eq!(dao.get_meta(LAST_INGEST_META_KEY).unwrap(), Some(1234));
    dao.put_meta(LAST_INGEST_META_KEY, 99).unwrap();
    assert_eq!(dao.get_meta(LAST_INGEST_META_KEY).unwrap(), Some(99));
    dao.clear().unwrap();
    assert_eq!(dao.get_meta(LAST_INGEST_META_KEY).unwrap(), None);
}

#[test]
fn clear_removes_suggestions() {
    let conn = open_db();
    let counter = AtomicUsize::new(0);
    let mut dao = SuggestDao::new(&conn, SqlInterruptScope::new(&counter));
    let record = SuggestRecordId::new("r".to_string());
    dao.insert_suggestions(&record, &[wikipedia(&["w"], "W")]).unwrap();
    dao.clear().unwrap();
    assert!(dao.fetch_by_keyword("w").unwrap().is_empty());
}

#[test]
fn unknown_provider_is_reported() {
    let conn = open_db();
    conn.execute_batch(
        "INSERT INTO suggestions(id, record_id, provider, title, url) VALUES(1, 'r', 9, 't', 'u');
         INSERT INTO keywords(keyword, suggestion_id, rank) VALUES('odd', 1, 0);",
    )
    .unwrap();
    let counter = AtomicUsize::new(0);
    let mut dao = SuggestDao::new(&conn, SqlInterruptScope::new(&counter));
    assert!(matches!(dao.fetch_by_keyword("odd"), Err(SuggestError::UnknownProvider(9))));
}

#[test]
fn failed_insert_reports_sql_error() {
    let conn = Connection::open_in_memory().unwrap();
    let counter = AtomicUsize::new(0);
    let mut dao = SuggestDao::new(&conn, SqlInterruptScope::new(&counter));
    assert!(matches!(dao.insert_icon("i", &[1]), Err(SuggestError::Sql(_))));
    let record = SuggestRecordId::new("r".to_string());
    assert!(matches!(dao.insert_suggestions(&record, &[wikipedia(&["a"], "A")]), Err(SuggestError::Sql(_))));
    assert!(matches!(dao.get_meta("k"), Err(SuggestError::Sql(_))));
}

#[test]
fn amp_without_details_fails() {
    let conn = open_db();
    conn.execute_batch(
        "INSERT INTO suggestions(id, record_id, provider, title, url) VALUES(1, 'r', 1, 't', 'u');
         INSERT INTO keywords(keyword, suggestion_id, rank) VALUES('a', 1, 0);",
    )
    .unwrap();
    let counter = AtomicUsize::new(0);
    let mut dao = SuggestDao::new(&conn, SqlInterruptScope::new(&counter));
    assert!(matches!(dao.fetch_by_keyword("a"), Err(SuggestError::Sql(_))));
}

#[test]
fn provider_codes() {
    assert_eq!(SuggestionProvider::Amp.to_sql_code(), 1);
    assert_eq!(SuggestionProvider::Wikipedia.to_sql_code(), 2);
    for p in [SuggestionProvider::Amp, SuggestionProvider::Wikipedia] {
        assert_eq!(SuggestionProvider::from_sql_code(p.to_sql_code()), Some(p));
    }
    assert_eq!(SuggestionProvider::from_sql_code(0), None);
    assert_eq!(SuggestionProvider::from_sql_code(3), None);
}

#[test]
fn downloaded_suggestion_accessors() {
    let a = amp(&["k"], "T", "c");
    assert_eq!(a.provider(), SuggestionProvider::Amp);
    assert_eq!(a.common_details().title, "T");
    let w = wikipedia(&["k"], "W");
    assert_eq!(w.provider(), SuggestionProvider::Wikipedia);
    assert_eq!(w.common_details().keywords, vec!["k".to_string()]);
    assert_eq!(SuggestRecordId::new("id".to_string()).as_str(), "id");
}

#[test]
fn nonsponsored_categories() {
    assert!(is_nonsponsored_iab_category(&"5 - Education".to_string()));
    assert!(!is_nonsponsored_iab_category(&"22 - Shopping".to_string()));
}

#[test]
fn connection_flags() {
    assert_eq!(ConnectionType::ReadOnly.open_flag_bits(), 0x8041);
    assert_eq!(ConnectionType::ReadWrite.open_flag_bits(), 0x8046);
    assert_eq!(
        ConnectionType::ReadOnly.open_flags(),
        OpenFlags::SQLITE_OPEN_URI | OpenFlags::SQLITE_OPEN_NO_MUTEX | OpenFlags::SQLITE_OPEN_READ_ONLY
    );
    assert_eq!(
        ConnectionType::ReadWrite.open_flags(),
        OpenFlags::SQLITE_OPEN_URI
            | OpenFlags::SQLITE_OPEN_NO_MUTEX
            | OpenFlags::SQLITE_OPEN_CREATE
            | OpenFlags::SQLITE_OPEN_READ_WRITE
    );
}

#[test]
fn interrupted_insert_writes_nothing() {
    let conn = open_db();
    let counter = AtomicUsize::new(0);
    let mut dao = SuggestDao::new(&conn, SqlInterruptScope::new(&counter));
    counter.fetch_add(1, Ordering::SeqCst);
    let record = SuggestRecordId::new("r".to_string());
    assert!(matches!(
        dao.insert_suggestions(&record, &[wikipedia(&["w"], "W")]),
        Err(SuggestError::Interrupted)
    ));
    let n: i64 = conn.query_row("SELECT count(*) FROM suggestions", [], |r| r.get(0)).unwrap();
    assert_eq!(n, 0);
}

#[test]
fn keyword_prefix_does_not_match() {
    let conn = open_db();
    let counter = AtomicUsize::new(0);
    let mut dao = SuggestDao::new(&conn, SqlInterruptScope::new(&counter));
    let record = SuggestRecordId::new("r1".to_string());
    dao.insert_suggestions(&record, &[amp(&["lasagna"], "L", "5 - Education")]).unwrap();
    assert!(dao.fetch_by_keyword("lasag").unwrap().is_empty());
    let found = dao.fetch_by_keyword("lasagna").unwrap();
    assert_eq!(found.len(), 1);
    assert!(!found[0].is_sponsored);
    assert_eq!(found[0].advertiser, "Los Pollos Hermanos");
    assert_eq!(found[0].block_id, 7);
    assert_eq!(found[0].icon, None);
}

#[test]
fn failed_keyword_insert_stops() {
    let conn = open_db();
    let counter = AtomicUsize::new(0);
    let mut dao = SuggestDao::new(&conn, SqlInterruptScope::new(&counter));
    let record = SuggestRecordId::new("r".to_string());
    // The same keyword twice violates the keywords primary key.
    assert!(matches!(
        dao.insert_suggestions(&record, &[wikipedia(&["dup", "dup"], "D"), wikipedia(&["next"], "N")]),
        Err(SuggestError::Sql(_))
    ));
    let n: i64 = conn.query_row("SELECT count(*) FROM suggestions", [], |r| r.get(0)).unwrap();
    assert_eq!(n, 1);
}

#[test]
fn transaction_commits_on_success() {
    let mut conn = open_db();
    let counter = AtomicUsize::new(0);
    let mut log = remote_settings::suggest::sqlite::SqlLog::new();
    let r = remote_settings::suggest::db::write_in_transaction(&mut conn, &mut log, &counter, |dao: &mut SuggestDao| {
        dao.put_meta("k", 5)?;
        Ok(17)
    });
    assert!(matches!(r, Ok(17)));
    let v: i64 = conn.query_row("SELECT value FROM meta WHERE key = 'k'", [], |r| r.get(0)).unwrap();
    assert_eq!(v, 5);
}

#[test]
fn transaction_rolls_back_on_error() {
    let mut conn = open_db();
    let counter = AtomicUsize::new(0);
    let mut log = remote_settings::suggest::sqlite::SqlLog::new();
    let r: Result<(), SuggestError> =
        remote_settings::suggest::db::write_in_transaction(&mut conn, &mut log, &counter, |dao: &mut SuggestDao| {
            dao.put_meta("k", 5)?;
            Err(SuggestError::UnknownProvider(3))
        });
    assert!(matches!(r, Err(SuggestError::UnknownProvider(3))));
    let n: i64 = conn.query_row("SELECT count(*) FROM meta", [], |r| r.get(0)).unwrap();
    assert_eq!(n, 0);
}
