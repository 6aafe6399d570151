use inventory_core::db::{initialize_tables, Db};
use inventory_core::operations::{fetch_all_records, find_record_by_id, import_records};
use inventory_core::types::{Article, Error};

fn imp_open_db() -> Db {
    let conn = rusqlite::Connection::open_in_memory().unwrap();
    let mut db = Db::from_connection(conn);
    initialize_tables(&mut db).unwrap();
    db
}

fn imp_article(id: i32, name: &str) -> Article {
    Article::new(id, name.to_string(), 250, "factory".to_string(), 5, None)
}

/// A three-row batch whose second row is malformed: the first row lands, the
/// second row's error is surfaced, the third row is never attempted.
#[test]
fn import_aborts_on_first_bad_row() {
    let mut db = imp_open_db();
    let rows: Vec<Result<Article, Error>> = vec![
        Ok(imp_article(1, "first")),
        Err(Error::Parse),
        Ok(imp_article(3, "third")),
    ];
    let r = import_records(&mut db, &rows);
    assert_eq!(r, Err(Error::Parse));
    let all: Vec<Article> = fetch_all_records(&db).unwrap();
    assert_eq!(all.len(), 1);
    assert_eq!(all[0].article_id, 1);
    assert!(matches!(find_record_by_id::<Article>(&db, 3), Err(Error::NotFound)));
}

#[test]
fn import_inserts_every_good_row() {
    let mut db = imp_open_db();
    let rows: Vec<Result<Article, Error>> = vec![
        Ok(imp_article(1, "first")),
        Ok(imp_article(2, "second")),
        Ok(imp_article(3, "third")),
    ];
    import_records(&mut db, &rows).unwrap();
    let all: Vec<Article> = fetch_all_records(&db).unwrap();
    assert_eq!(all.len(), 3);
    assert_eq!(all[0].article_id, 1);
    assert_eq!(all[1].article_id, 2);
    assert_eq!(all[2].article_id, 3);
}

/// An import runs each row through the ordinary insert, so a duplicate id in
/// the batch aborts it with `DuplicateId` and keeps what came before.
#[test]
fn import_aborts_on_duplicate_id() {
    let mut db = imp_open_db();
    let rows: Vec<Result<Article, Error>> = vec![
        Ok(imp_article(1, "first")),
        Ok(imp_article(1, "double")),
        Ok(imp_article(2, "second")),
    ];
    let r = import_records(&mut db, &rows);
    assert_eq!(r, Err(Error::DuplicateId));
    let all: Vec<Article> = fetch_all_records(&db).unwrap();
    assert_eq!(all.len(), 1);
    assert_eq!(all[0].name, "first");
}
