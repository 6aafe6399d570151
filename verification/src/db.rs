//! The relational store behind the persistence layer.
//!
//! `Db` owns one SQLite connection — exclusively, for as long as it lives —
//! and is the only way the library touches the database.  Each of the four tables
//! is modelled as a sequence of plain row values: the rows in rowid order,
//! which is the order un-ordered scans return and in which SQLite appends
//! freshly inserted rows (a new row gets a rowid above every rowid still in
//! use).  Every statement the library issues goes through one of the trusted
//! wrappers below, whose contracts say over those sequences what the statement
//! does.
use crate::sql::{
    spec_delete_all_sql, spec_delete_by_id_sql, spec_insert_sql, spec_select_all_sql,
    spec_select_by_id_sql, spec_update_sql,
};
use crate::types::{Article, Customer, Error, ItemRow, OrderRow};
use vstd::prelude::*;

verus! {

/// Declares rusqlite's `Connection` so it can stand in the store's field; the
/// value stays opaque, and every use of it goes through the wrappers below.
#[verifier::external_type_specification]
#[verifier::external_body]
pub struct ExConnection(rusqlite::Connection);

/// A live database connection together with the model of its four tables.
pub struct Db {
    conn: rusqlite::Connection,
}

impl Db {
    /// Wraps an exclusively owned connection.  Nothing is known about the
    /// contents of the tables behind a fresh connection.
    pub fn from_connection(conn: rusqlite::Connection) -> Db {
        Db { conn }
    }
}

/// The rows of the article table.
pub uninterp spec fn articles_of(db: Db) -> Seq<Article>;

/// The rows of the customer table.
pub uninterp spec fn customers_of(db: Db) -> Seq<Customer>;

/// The rows of the orders table.
pub uninterp spec fn orders_of(db: Db) -> Seq<OrderRow>;

/// The rows of the order-article join table.
pub uninterp spec fn items_of(db: Db) -> Seq<ItemRow>;

/// No table changed.
pub open spec fn db_unchanged(pre: Db, post: Db) -> bool {
    &&& articles_of(post) == articles_of(pre)
    &&& customers_of(post) == customers_of(pre)
    &&& orders_of(post) == orders_of(pre)
    &&& items_of(post) == items_of(pre)
}

/// Every table but the article table is unchanged.
pub open spec fn same_but_articles(pre: Db, post: Db) -> bool {
    &&& customers_of(post) == customers_of(pre)
    &&& orders_of(post) == orders_of(pre)
    &&& items_of(post) == items_of(pre)
}

/// Every table but the customer table is unchanged.
pub open spec fn same_but_customers(pre: Db, post: Db) -> bool {
    &&& articles_of(post) == articles_of(pre)
    &&& orders_of(post) == orders_of(pre)
    &&& items_of(post) == items_of(pre)
}

/// Every table but the orders table is unchanged.
pub open spec fn same_but_orders(pre: Db, post: Db) -> bool {
    &&& articles_of(post) == articles_of(pre)
    &&& customers_of(post) == customers_of(pre)
    &&& items_of(post) == items_of(pre)
}

/// Every table but the join table is unchanged.
pub open spec fn same_but_items(pre: Db, post: Db) -> bool {
    &&& articles_of(post) == articles_of(pre)
    &&& customers_of(post) == customers_of(pre)
    &&& orders_of(post) == orders_of(pre)
}

/// The first element satisfying the predicate, in row order.
pub open spec fn first_where<A>(rows: Seq<A>, p: spec_fn(A) -> bool) -> Option<A>
    decreases rows.len(),
{
    if rows.len() == 0 {
        None
    } else if p(rows[0]) {
        Some(rows[0])
    } else {
        first_where(rows.drop_first(), p)
    }
}

pub proof fn lemma_first_where_props<A>(rows: Seq<A>, p: spec_fn(A) -> bool)
    ensures
        match first_where(rows, p) {
            Some(x) => p(x) && rows.contains(x),
            None => forall|j: int| 0 <= j < rows.len() ==> !p(rows[j]),
        },
    decreases rows.len(),
{
    if rows.len() > 0 && !p(rows[0]) {
        lemma_first_where_props(rows.drop_first(), p);
        match first_where(rows.drop_first(), p) {
            Some(x) => {
                let i = choose|i: int|
                    0 <= i < rows.drop_first().len() && rows.drop_first()[i] == x;
                assert(rows[i + 1] == x);
            },
            None => {
                assert forall|j: int| 0 <= j < rows.len() implies !p(rows[j]) by {
                    if j > 0 {
                        assert(rows.drop_first()[j - 1] == rows[j]);
                    }
                }
            },
        }
    }
}

pub proof fn lemma_first_where_push<A>(rows: Seq<A>, p: spec_fn(A) -> bool, x: A)
    ensures
        first_where(rows.push(x), p) == (match first_where(rows, p) {
            Some(y) => Some(y),
            None => if p(x) {
                Some(x)
            } else {
                None
            },
        }),
    decreases rows.len(),
{
    if rows.len() == 0 {
        assert(rows.push(x)[0] == x);
        if !p(x) {
            assert(rows.push(x).drop_first() =~= Seq::<A>::empty());
            assert(first_where(Seq::<A>::empty(), p) is None);
        }
    } else {
        assert(rows.push(x)[0] == rows[0]);
        assert(rows.push(x).drop_first() =~= rows.drop_first().push(x));
        lemma_first_where_push(rows.drop_first(), p, x);
    }
}

/// Some article row carries this business id.
pub open spec fn has_article_id(rows: Seq<Article>, id: i32) -> bool {
    exists|j: int| 0 <= j < rows.len() && rows[j].article_id == id
}

/// Some customer row carries this business id.
pub open spec fn has_customer_id(rows: Seq<Customer>, id: i32) -> bool {
    exists|j: int| 0 <= j < rows.len() && rows[j].customer_id == id
}

/// Some order row carries this business id.
pub open spec fn has_order_id(rows: Seq<OrderRow>, id: i32) -> bool {
    exists|j: int| 0 <= j < rows.len() && rows[j].order_id == id
}

/// The table name of the article table.
pub open spec fn article_table() -> Seq<char> {
    "article"@
}

/// The columns of the article table, in binding order.
pub open spec fn article_columns() -> Seq<Seq<char>> {
    seq!["article_id"@, "name"@, "price"@, "manufacturer"@, "stock"@, "category"@]
}

/// The business-id column of the article table.
pub open spec fn article_id_col() -> Seq<char> {
    "article_id"@
}

/// The table name of the customer table.
pub open spec fn customer_table() -> Seq<char> {
    "customer"@
}

/// The columns of the customer table, in binding order.
pub open spec fn customer_columns() -> Seq<Seq<char>> {
    seq![
        "customer_id"@,
        "first_name"@,
        "last_name"@,
        "street"@,
        "location"@,
        "zip_code"@,
        "email"@,
    ]
}

/// The business-id column of the customer table.
pub open spec fn customer_id_col() -> Seq<char> {
    "customer_id"@
}

/// The table name of the orders table.
pub open spec fn order_table() -> Seq<char> {
    "orders"@
}

/// The columns of the orders table, in binding order.
pub open spec fn order_columns() -> Seq<Seq<char>> {
    seq!["order_id"@, "customer_id"@, "date"@, "order_type"@, "status"@]
}

/// The business-id column of the orders table.
pub open spec fn order_id_col() -> Seq<char> {
    "order_id"@
}

/// The first article row carrying this business id, in row order.
pub open spec fn find_article_spec(db: Db, id: i32) -> Option<Article> {
    first_where(articles_of(db), |a: Article| a.article_id == id)
}

/// The first customer row carrying this business id, in row order.
pub open spec fn find_customer_spec(db: Db, id: i32) -> Option<Customer> {
    first_where(customers_of(db), |c: Customer| c.customer_id == id)
}

/// The first order row carrying this business id, in row order.
pub open spec fn find_order_row_spec(db: Db, id: i32) -> Option<OrderRow> {
    first_where(orders_of(db), |o: OrderRow| o.order_id == id)
}

/// The article rows left once every row with this business id is removed.
pub open spec fn articles_without(rows: Seq<Article>, id: i32) -> Seq<Article> {
    rows.filter(|a: Article| a.article_id != id)
}

/// The customer rows left once every row with this business id is removed.
pub open spec fn customers_without(rows: Seq<Customer>, id: i32) -> Seq<Customer> {
    rows.filter(|c: Customer| c.customer_id != id)
}

/// The order rows left once every row with this business id is removed.
pub open spec fn orders_without(rows: Seq<OrderRow>, id: i32) -> Seq<OrderRow> {
    rows.filter(|o: OrderRow| o.order_id != id)
}

/// The join rows left once every row of this order is removed.
pub open spec fn items_without(rows: Seq<ItemRow>, order_id: i32) -> Seq<ItemRow> {
    rows.filter(|it: ItemRow| it.order_id != order_id)
}

/// The join rows belonging to this order, in row order.
pub open spec fn items_of_order(rows: Seq<ItemRow>, order_id: i32) -> Seq<ItemRow> {
    rows.filter(|it: ItemRow| it.order_id == order_id)
}

pub proof fn lemma_find_article_has(db: Db, id: i32)
    ensures
        (find_article_spec(db, id) is Some) == has_article_id(articles_of(db), id),
        match find_article_spec(db, id) {
            Some(row) => articles_of(db).contains(row) && row.article_id == id,
            None => true,
        },
{
    lemma_first_where_props(articles_of(db), |a: Article| a.article_id == id);
    match find_article_spec(db, id) {
        Some(x) => {
            let rows = articles_of(db);
            let i = choose|i: int| 0 <= i < rows.len() && rows[i] == x;
            assert(rows[i].article_id == id);
        },
        None => {},
    }
}

pub proof fn lemma_find_customer_has(db: Db, id: i32)
    ensures
        (find_customer_spec(db, id) is Some) == has_customer_id(customers_of(db), id),
        match find_customer_spec(db, id) {
            Some(row) => customers_of(db).contains(row) && row.customer_id == id,
            None => true,
        },
{
    lemma_first_where_props(customers_of(db), |c: Customer| c.customer_id == id);
    match find_customer_spec(db, id) {
        Some(x) => {
            let rows = customers_of(db);
            let i = choose|i: int| 0 <= i < rows.len() && rows[i] == x;
            assert(rows[i].customer_id == id);
        },
        None => {},
    }
}

pub proof fn lemma_find_order_row_has(db: Db, id: i32)
    ensures
        (find_order_row_spec(db, id) is Some) == has_order_id(orders_of(db), id),
        match find_order_row_spec(db, id) {
            Some(row) => orders_of(db).contains(row) && row.order_id == id,
            None => true,
        },
{
    lemma_first_where_props(orders_of(db), |o: OrderRow| o.order_id == id);
    match find_order_row_spec(db, id) {
        Some(x) => {
            let rows = orders_of(db);
            let i = choose|i: int| 0 <= i < rows.len() && rows[i] == x;
            assert(rows[i].order_id == id);
        },
        None => {},
    }
}

/// The article rows after a full-row update: every row whose business id
/// matches is overwritten in place.
pub open spec fn replace_articles(rows: Seq<Article>, row: Article) -> Seq<Article> {
    rows.map_values(|r: Article| if r.article_id == row.article_id { row } else { r })
}

/// The customer rows after a full-row update.
pub open spec fn replace_customers(rows: Seq<Customer>, row: Customer) -> Seq<Customer> {
    rows.map_values(|r: Customer| if r.customer_id == row.customer_id { row } else { r })
}

/// The order rows after a full-row update.
pub open spec fn replace_orders(rows: Seq<OrderRow>, row: OrderRow) -> Seq<OrderRow> {
    rows.map_values(|r: OrderRow| if r.order_id == row.order_id { row } else { r })
}

/// Relies on rusqlite's `Connection::execute_batch`: runs the idempotent
/// CREATE TABLE IF NOT EXISTS statements for the four tables.  Existing data
/// is untouched, but nothing is claimed about the table contents afterwards,
/// since the connection may point at a database with prior contents.  The
/// foreign-key declarations are descriptive only: enforcement stays off, as
/// referential existence is deliberately not a constraint of this store.
#[verifier::external_body]
pub fn initialize_tables(db: &mut Db) -> (r: Result<(), Error>)
    ensures
        r matches Ok(_) ==> db_unchanged(*old(db), *final(db)),
{
    db.conn
        .execute_batch(
            "PRAGMA foreign_keys = OFF;
            CREATE TABLE IF NOT EXISTS article (id INTEGER PRIMARY KEY, article_id INTEGER NOT NULL, name TEXT NOT NULL, price INTEGER NOT NULL, manufacturer TEXT NOT NULL, stock INTEGER NOT NULL, category TEXT);
            CREATE TABLE IF NOT EXISTS customer (id INTEGER PRIMARY KEY, customer_id INTEGER NOT NULL, first_name TEXT NOT NULL, last_name TEXT NOT NULL, street TEXT NOT NULL, location TEXT NOT NULL, zip_code INTEGER NOT NULL, email TEXT NOT NULL);
            CREATE TABLE IF NOT EXISTS orders (id INTEGER PRIMARY KEY, order_id INTEGER NOT NULL, customer_id INTEGER NOT NULL, date TEXT NOT NULL, order_type TEXT NOT NULL, status TEXT NOT NULL, FOREIGN KEY(customer_id) REFERENCES customer(customer_id));
            CREATE TABLE IF NOT EXISTS order_article (id INTEGER PRIMARY KEY, order_id INTEGER NOT NULL, article_id INTEGER NOT NULL, quantity INTEGER NOT NULL, FOREIGN KEY (order_id) REFERENCES orders(order_id), FOREIGN KEY (article_id) REFERENCES article(article_id));",
        )
        .map_err(|_| Error::SqlExecution)
}

/// Relies on rusqlite's `Connection::execute` running one parameterized
/// INSERT: on success the row is appended; a failed statement changes nothing.
#[verifier::external_body]
pub(crate) fn exec_insert_article(db: &mut Db, sql: &str, row: &Article) -> (r: Result<
    (),
    Error,
>)
    requires
        sql@ == spec_insert_sql(article_table(), article_columns()),
    ensures
        match r {
            Ok(_) => articles_of(*final(db)) == articles_of(*old(db)).push(*row)
                && same_but_articles(*old(db), *final(db)),
            Err(e) => e == Error::SqlExecution && db_unchanged(*old(db), *final(db)),
        },
{
    db.conn
        .execute(
            sql,
            (row.article_id, row.name.as_str(), row.price, row.manufacturer.as_str(),
                row.stock, row.category.as_deref()),
        )
        .map(|_| ())
        .map_err(|_| Error::SqlExecution)
}

/// Relies on rusqlite's `Connection::execute` running one parameterized
/// UPDATE: every row matching the WHERE id is overwritten in place (rowids,
/// and so row order, are untouched); a failed statement changes nothing.
#[verifier::external_body]
pub(crate) fn exec_update_article(db: &mut Db, sql: &str, row: &Article) -> (r: Result<
    (),
    Error,
>)
    requires
        sql@ == spec_update_sql(article_table(), article_columns(), article_id_col()),
    ensures
        match r {
            Ok(_) => articles_of(*final(db)) == replace_articles(articles_of(*old(db)), *row)
                && same_but_articles(*old(db), *final(db)),
            Err(e) => e == Error::SqlExecution && db_unchanged(*old(db), *final(db)),
        },
{
    db.conn
        .execute(
            sql,
            (row.article_id, row.article_id, row.name.as_str(), row.price,
                row.manufacturer.as_str(), row.stock, row.category.as_deref()),
        )
        .map(|_| ())
        .map_err(|_| Error::SqlExecution)
}

/// Relies on rusqlite's `Connection::execute` running one DELETE: with an id,
/// every row matching the WHERE id is removed and the rest keep their order;
/// without one, the table is emptied.  A failed statement changes nothing.
#[verifier::external_body]
pub(crate) fn exec_delete_articles(db: &mut Db, sql: &str, id: Option<i32>) -> (r: Result<
    (),
    Error,
>)
    requires
        id is Some ==> sql@ == spec_delete_by_id_sql(article_table(), article_id_col()),
        id is None ==> sql@ == spec_delete_all_sql(article_table()),
    ensures
        match r {
            Ok(_) => (match id {
                Some(i) => articles_of(*final(db)) == articles_without(articles_of(*old(db)), i),
                None => articles_of(*final(db)) == Seq::<Article>::empty(),
            }) && same_but_articles(*old(db), *final(db)),
            Err(e) => e == Error::SqlExecution && db_unchanged(*old(db), *final(db)),
        },
{
    let r = match id {
        Some(i) => db.conn.execute(sql, (i,)),
        None => db.conn.execute(sql, ()),
    };
    r.map(|_| ()).map_err(|_| Error::SqlExecution)
}

/// Relies on rusqlite's `Statement::query_map` over an un-ordered SELECT,
/// which yields the table's rows in rowid order.
#[verifier::external_body]
pub(crate) fn exec_select_articles(db: &Db, sql: &str) -> (r: Result<Vec<Article>, Error>)
    requires
        sql@ == spec_select_all_sql(article_table(), article_columns()),
    ensures
        match r {
            Ok(v) => v@ == articles_of(*db),
            Err(e) => e == Error::SqlExecution,
        },
{
    let run = || -> rusqlite::Result<Vec<Article>> {
        let mut stmt = db.conn.prepare(sql)?;
        let rows = stmt.query_map((), |r| {
            Ok(Article { article_id: r.get(0)?, name: r.get(1)?, price: r.get(2)?,
                manufacturer: r.get(3)?, stock: r.get(4)?, category: r.get(5)? })
        })?;
        rows.collect()
    };
    run().map_err(|_| Error::SqlExecution)
}

/// Relies on rusqlite's `Statement::query_map` over a WHERE-id SELECT, which
/// yields the matching rows in rowid order; the first one is taken.
#[verifier::external_body]
pub(crate) fn exec_select_article_by_id(db: &Db, sql: &str, id: i32) -> (r: Result<
    Option<Article>,
    Error,
>)
    requires
        sql@ == spec_select_by_id_sql(article_table(), article_columns(), article_id_col()),
    ensures
        match r {
            Ok(opt) => opt == find_article_spec(*db, id),
            Err(e) => e == Error::SqlExecution,
        },
{
    let run = || -> rusqlite::Result<Option<Article>> {
        let mut stmt = db.conn.prepare(sql)?;
        let mut rows = stmt.query_map((id,), |r| {
            Ok(Article { article_id: r.get(0)?, name: r.get(1)?, price: r.get(2)?,
                manufacturer: r.get(3)?, stock: r.get(4)?, category: r.get(5)? })
        })?;
        match rows.next() {
            Some(a) => Ok(Some(a?)),
            None => Ok(None),
        }
    };
    run().map_err(|_| Error::SqlExecution)
}

/// Relies on rusqlite's `Connection::execute` running one parameterized
/// INSERT: on success the row is appended; a failed statement changes nothing.
#[verifier::external_body]
pub(crate) fn exec_insert_customer(db: &mut Db, sql: &str, row: &Customer) -> (r: Result<
    (),
    Error,
>)
    requires
        sql@ == spec_insert_sql(customer_table(), customer_columns()),
    ensures
        match r {
            Ok(_) => customers_of(*final(db)) == customers_of(*old(db)).push(*row)
                && same_but_customers(*old(db), *final(db)),
            Err(e) => e == Error::SqlExecution && db_unchanged(*old(db), *final(db)),
        },
{
    db.conn
        .execute(
            sql,
            (row.customer_id, row.first_name.as_str(), row.last_name.as_str(),
                row.street.as_str(), row.location.as_str(), row.zip_code,
                row.email.as_str()),
        )
        .map(|_| ())
        .map_err(|_| Error::SqlExecution)
}

/// Relies on rusqlite's `Connection::execute` running one parameterized
/// UPDATE: every row matching the WHERE id is overwritten in place; a failed
/// statement changes nothing.
#[verifier::external_body]
pub(crate) fn exec_update_customer(db: &mut Db, sql: &str, row: &Customer) -> (r: Result<
    (),
    Error,
>)
    requires
        sql@ == spec_update_sql(customer_table(), customer_columns(), customer_id_col()),
    ensures
        match r {
            Ok(_) => customers_of(*final(db)) == replace_customers(customers_of(*old(db)), *row)
                && same_but_customers(*old(db), *final(db)),
            Err(e) => e == Error::SqlExecution && db_unchanged(*old(db), *final(db)),
        },
{
    db.conn
        .execute(
            sql,
            (row.customer_id, row.customer_id, row.first_name.as_str(),
                row.last_name.as_str(), row.street.as_str(), row.location.as_str(),
                row.zip_code, row.email.as_str()),
        )
        .map(|_| ())
        .map_err(|_| Error::SqlExecution)
}

/// Relies on rusqlite's `Connection::execute` running one DELETE, as for the
/// article table.
#[verifier::external_body]
pub(crate) fn exec_delete_customers(db: &mut Db, sql: &str, id: Option<i32>) -> (r: Result<
    (),
    Error,
>)
    requires
        id is Some ==> sql@ == spec_delete_by_id_sql(customer_table(), customer_id_col()),
        id is None ==> sql@ == spec_delete_all_sql(customer_table()),
    ensures
        match r {
            Ok(_) => (match id {
                Some(i) => customers_of(*final(db)) == customers_without(
                    customers_of(*old(db)),
                    i,
                ),
                None => customers_of(*final(db)) == Seq::<Customer>::empty(),
            }) && same_but_customers(*old(db), *final(db)),
            Err(e) => e == Error::SqlExecution && db_unchanged(*old(db), *final(db)),
        },
{
    let r = match id {
        Some(i) => db.conn.execute(sql, (i,)),
        None => db.conn.execute(sql, ()),
    };
    r.map(|_| ()).map_err(|_| Error::SqlExecution)
}

/// Relies on rusqlite's `Statement::query_map` over an un-ordered SELECT,
/// which yields the table's rows in rowid order.
#[verifier::external_body]
pub(crate) fn exec_select_customers(db: &Db, sql: &str) -> (r: Result<Vec<Customer>, Error>)
    requires
        sql@ == spec_select_all_sql(customer_table(), customer_columns()),
    ensures
        match r {
            Ok(v) => v@ == customers_of(*db),
            Err(e) => e == Error::SqlExecution,
        },
{
    let run = || -> rusqlite::Result<Vec<Customer>> {
        let mut stmt = db.conn.prepare(sql)?;
        let rows = stmt.query_map((), |r| {
            Ok(Customer { customer_id: r.get(0)?, first_name: r.get(1)?, last_name: r.get(2)?,
                street: r.get(3)?, location: r.get(4)?, zip_code: r.get(5)?, email: r.get(6)? })
        })?;
        rows.collect()
    };
    run().map_err(|_| Error::SqlExecution)
}

/// Relies on rusqlite's `Statement::query_map` over a WHERE-id SELECT; the
/// first matching row in rowid order is taken.
#[verifier::external_body]
pub(crate) fn exec_select_customer_by_id(db: &Db, sql: &str, id: i32) -> (r: Result<
    Option<Customer>,
    Error,
>)
    requires
        sql@ == spec_select_by_id_sql(customer_table(), customer_columns(), customer_id_col()),
    ensures
        match r {
            Ok(opt) => opt == find_customer_spec(*db, id),
            Err(e) => e == Error::SqlExecution,
        },
{
    let run = || -> rusqlite::Result<Option<Customer>> {
        let mut stmt = db.conn.prepare(sql)?;
        let mut rows = stmt.query_map((id,), |r| {
            Ok(Customer { customer_id: r.get(0)?, first_name: r.get(1)?, last_name: r.get(2)?,
                street: r.get(3)?, location: r.get(4)?, zip_code: r.get(5)?, email: r.get(6)? })
        })?;
        match rows.next() {
            Some(c) => Ok(Some(c?)),
            None => Ok(None),
        }
    };
    run().map_err(|_| Error::SqlExecution)
}

/// Relies on rusqlite's `Connection::execute` running one parameterized
/// INSERT: on success the row is appended; a failed statement changes nothing.
#[verifier::external_body]
pub(crate) fn exec_insert_order_row(db: &mut Db, sql: &str, row: &OrderRow) -> (r: Result<
    (),
    Error,
>)
    requires
        sql@ == spec_insert_sql(order_table(), order_columns()),
    ensures
        match r {
            Ok(_) => orders_of(*final(db)) == orders_of(*old(db)).push(*row)
                && same_but_orders(*old(db), *final(db)),
            Err(e) => e == Error::SqlExecution && db_unchanged(*old(db), *final(db)),
        },
{
    db.conn
        .execute(
            sql,
            (row.order_id, row.customer_id, row.date.as_str(), row.order_type.as_str(),
                row.status.as_str()),
        )
        .map(|_| ())
        .map_err(|_| Error::SqlExecution)
}

/// Relies on rusqlite's `Connection::execute` running one parameterized
/// UPDATE: every row matching the WHERE id is overwritten in place; a failed
/// statement changes nothing.
#[verifier::external_body]
pub(crate) fn exec_update_order_row(db: &mut Db, sql: &str, row: &OrderRow) -> (r: Result<
    (),
    Error,
>)
    requires
        sql@ == spec_update_sql(order_table(), order_columns(), order_id_col()),
    ensures
        match r {
            Ok(_) => orders_of(*final(db)) == replace_orders(orders_of(*old(db)), *row)
                && same_but_orders(*old(db), *final(db)),
            Err(e) => e == Error::SqlExecution && db_unchanged(*old(db), *final(db)),
        },
{
    db.conn
        .execute(
            sql,
            (row.order_id, row.order_id, row.customer_id, row.date.as_str(),
                row.order_type.as_str(), row.status.as_str()),
        )
        .map(|_| ())
        .map_err(|_| Error::SqlExecution)
}

/// Relies on rusqlite's `Connection::execute` running one DELETE, as for the
/// article table.
#[verifier::external_body]
pub(crate) fn exec_delete_orders(db: &mut Db, sql: &str, id: Option<i32>) -> (r: Result<
    (),
    Error,
>)
    requires
        id is Some ==> sql@ == spec_delete_by_id_sql(order_table(), order_id_col()),
        id is None ==> sql@ == spec_delete_all_sql(order_table()),
    ensures
        match r {
            Ok(_) => (match id {
                Some(i) => orders_of(*final(db)) == orders_without(orders_of(*old(db)), i),
                None => orders_of(*final(db)) == Seq::<OrderRow>::empty(),
            }) && same_but_orders(*old(db), *final(db)),
            Err(e) => e == Error::SqlExecution && db_unchanged(*old(db), *final(db)),
        },
{
    let r = match id {
        Some(i) => db.conn.execute(sql, (i,)),
        None => db.conn.execute(sql, ()),
    };
    r.map(|_| ()).map_err(|_| Error::SqlExecution)
}

/// Relies on rusqlite's `Statement::query_map` over an un-ordered SELECT,
/// which yields the table's rows in rowid order.
#[verifier::external_body]
pub(crate) fn exec_select_order_rows(db: &Db, sql: &str) -> (r: Result<Vec<OrderRow>, Error>)
    requires
        sql@ == spec_select_all_sql(order_table(), order_columns()),
    ensures
        match r {
            Ok(v) => v@ == orders_of(*db),
            Err(e) => e == Error::SqlExecution,
        },
{
    let run = || -> rusqlite::Result<Vec<OrderRow>> {
        let mut stmt = db.conn.prepare(sql)?;
        let rows = stmt.query_map((), |r| {
            Ok(OrderRow { order_id: r.get(0)?, customer_id: r.get(1)?, date: r.get(2)?,
                order_type: r.get(3)?, status: r.get(4)? })
        })?;
        rows.collect()
    };
    run().map_err(|_| Error::SqlExecution)
}

/// Relies on rusqlite's `Statement::query_map` over a WHERE-id SELECT; the
/// first matching row in rowid order is taken.
#[verifier::external_body]
pub(crate) fn exec_select_order_row_by_id(db: &Db, sql: &str, id: i32) -> (r: Result<
    Option<OrderRow>,
    Error,
>)
    requires
        sql@ == spec_select_by_id_sql(order_table(), order_columns(), order_id_col()),
    ensures
        match r {
            Ok(opt) => opt == find_order_row_spec(*db, id),
            Err(e) => e == Error::SqlExecution,
        },
{
    let run = || -> rusqlite::Result<Option<OrderRow>> {
        let mut stmt = db.conn.prepare(sql)?;
        let mut rows = stmt.query_map((id,), |r| {
            Ok(OrderRow { order_id: r.get(0)?, customer_id: r.get(1)?, date: r.get(2)?,
                order_type: r.get(3)?, status: r.get(4)? })
        })?;
        match rows.next() {
            Some(o) => Ok(Some(o?)),
            None => Ok(None),
        }
    };
    run().map_err(|_| Error::SqlExecution)
}

/// Relies on rusqlite's `Connection::execute` running the join-table INSERT
/// `INSERT INTO order_article (order_id, article_id, quantity) VALUES
/// (?1, ?2, ?3)`: on success the row is appended; a failed statement changes
/// nothing.
#[verifier::external_body]
pub(crate) fn exec_insert_item_row(db: &mut Db, row: ItemRow) -> (r: Result<(), Error>)
    ensures
        match r {
            Ok(_) => items_of(*final(db)) == items_of(*old(db)).push(row)
                && same_but_items(*old(db), *final(db)),
            Err(e) => e == Error::SqlExecution && db_unchanged(*old(db), *final(db)),
        },
{
    db.conn
        .execute(
            "INSERT INTO order_article (order_id, article_id, quantity) VALUES (?1, ?2, ?3)",
            (row.order_id, row.article_id, row.quantity),
        )
        .map(|_| ())
        .map_err(|_| Error::SqlExecution)
}

/// Relies on rusqlite's `Connection::execute` running `DELETE FROM
/// order_article WHERE order_id = ?1`, or without an id `DELETE FROM
/// order_article`: the join rows of that order (or all of them) are removed;
/// a failed statement changes nothing.
#[verifier::external_body]
pub(crate) fn exec_delete_item_rows(db: &mut Db, order_id: Option<i32>) -> (r: Result<
    (),
    Error,
>)
    ensures
        match r {
            Ok(_) => (match order_id {
                Some(i) => items_of(*final(db)) == items_without(items_of(*old(db)), i),
                None => items_of(*final(db)) == Seq::<ItemRow>::empty(),
            }) && same_but_items(*old(db), *final(db)),
            Err(e) => e == Error::SqlExecution && db_unchanged(*old(db), *final(db)),
        },
{
    let r = match order_id {
        Some(i) => db.conn.execute("DELETE FROM order_article WHERE order_id = ?1", (i,)),
        None => db.conn.execute("DELETE FROM order_article", ()),
    };
    r.map(|_| ()).map_err(|_| Error::SqlExecution)
}

/// Relies on rusqlite's `Statement::query_map` over `SELECT order_id,
/// article_id, quantity FROM order_article WHERE order_id = ?1`, which yields
/// the matching join rows in rowid order.
#[verifier::external_body]
pub(crate) fn exec_select_items_by_order(db: &Db, order_id: i32) -> (r: Result<
    Vec<ItemRow>,
    Error,
>)
    ensures
        match r {
            Ok(v) => v@ == items_of_order(items_of(*db), order_id),
            Err(e) => e == Error::SqlExecution,
        },
{
    let run = || -> rusqlite::Result<Vec<ItemRow>> {
        let mut stmt = db.conn.prepare(
            "SELECT order_id, article_id, quantity FROM order_article WHERE order_id = ?1",
        )?;
        let rows = stmt.query_map((order_id,), |r| {
            Ok(ItemRow { order_id: r.get(0)?, article_id: r.get(1)?, quantity: r.get(2)? })
        })?;
        rows.collect()
    };
    run().map_err(|_| Error::SqlExecution)
}

/// Relies on rusqlite's `Statement::query_map` over `SELECT order_id,
/// article_id, quantity FROM order_article`, which yields the join table's
/// rows in rowid order.
#[verifier::external_body]
pub(crate) fn exec_select_all_items(db: &Db) -> (r: Result<Vec<ItemRow>, Error>)
    ensures
        match r {
            Ok(v) => v@ == items_of(*db),
            Err(e) => e == Error::SqlExecution,
        },
{
    let run = || -> rusqlite::Result<Vec<ItemRow>> {
        let mut stmt = db.conn.prepare(
            "SELECT order_id, article_id, quantity FROM order_article",
        )?;
        let rows = stmt.query_map((), |r| {
            Ok(ItemRow { order_id: r.get(0)?, article_id: r.get(1)?, quantity: r.get(2)? })
        })?;
        rows.collect()
    };
    run().map_err(|_| Error::SqlExecution)
}

} // verus!
