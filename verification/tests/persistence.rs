use inventory_core::db::{initialize_tables, Db};
use inventory_core::operations::{
    delete_record_by_id, fetch_all_records, fetch_order_items, find_record_by_id, insert_record,
    update_record,
};
use inventory_core::traits::Searchable;
use inventory_core::types::{
    Article, Customer, Error, Order, OrderItem, OrderStatus, OrderType,
};

fn pers_open_db() -> Db {
    let conn = rusqlite::Connection::open_in_memory().unwrap();
    let mut db = Db::from_connection(conn);
    initialize_tables(&mut db).unwrap();
    db
}

fn pers_article(id: i32) -> Article {
    Article::new(
        id,
        format!("article {}", id),
        1000,
        "factory".to_string(),
        25,
        Some("tools".to_string()),
    )
}

fn pers_customer(id: i32) -> Customer {
    Customer::new(
        id,
        "Ada".to_string(),
        "Lovelace".to_string(),
        "Main Street 1".to_string(),
        "Springfield".to_string(),
        12345,
        "ada@example.org".to_string(),
    )
}

fn pers_assert_article_eq(a: &Article, b: &Article) {
    assert_eq!(a.article_id, b.article_id);
    assert_eq!(a.name, b.name);
    assert_eq!(a.price, b.price);
    assert_eq!(a.manufacturer, b.manufacturer);
    assert_eq!(a.stock, b.stock);
    assert_eq!(a.category, b.category);
}

fn pers_assert_customer_eq(a: &Customer, b: &Customer) {
    assert_eq!(a.customer_id, b.customer_id);
    assert_eq!(a.first_name, b.first_name);
    assert_eq!(a.last_name, b.last_name);
    assert_eq!(a.street, b.street);
    assert_eq!(a.location, b.location);
    assert_eq!(a.zip_code, b.zip_code);
    assert_eq!(a.email, b.email);
}

#[test]
fn insert_then_find_article() {
    let mut db = pers_open_db();
    let a = pers_article(7);
    insert_record(&mut db, &a).unwrap();
    let found: Article = find_record_by_id(&db, 7).unwrap();
    pers_assert_article_eq(&found, &a);
}

#[test]
fn insert_then_find_customer() {
    let mut db = pers_open_db();
    let c = pers_customer(3);
    insert_record(&mut db, &c).unwrap();
    let found: Customer = find_record_by_id(&db, 3).unwrap();
    pers_assert_customer_eq(&found, &c);
}

#[test]
fn insert_then_find_order_round_trip() {
    let mut db = pers_open_db();
    insert_record(&mut db, &pers_customer(1)).unwrap();
    insert_record(&mut db, &pers_article(10)).unwrap();
    insert_record(&mut db, &pers_article(11)).unwrap();
    let order = Order::new(
        500,
        pers_customer(1),
        vec![OrderItem::new(pers_article(10), 2), OrderItem::new(pers_article(11), 5)],
        "2024-01-02".to_string(),
        OrderType::Sale,
        OrderStatus::Pending,
    );
    insert_record(&mut db, &order).unwrap();
    let found: Order = find_record_by_id(&db, 500).unwrap();
    assert_eq!(found.order_id, 500);
    assert_eq!(found.customer.customer_id, 1);
    assert_eq!(found.date, "2024-01-02");
    assert_eq!(found.order_type, OrderType::Sale);
    assert_eq!(found.status, OrderStatus::Pending);
    assert_eq!(found.items.len(), 2);
    assert_eq!(found.items[0].article.article_id, 10);
    assert_eq!(found.items[0].quantity, 2);
    assert_eq!(found.items[1].article.article_id, 11);
    assert_eq!(found.items[1].quantity, 5);
}

#[test]
fn duplicate_insert_rejected() {
    let mut db = pers_open_db();
    let a = pers_article(7);
    insert_record(&mut db, &a).unwrap();
    let mut again = pers_article(7);
    again.name = "other name".to_string();
    let r = insert_record(&mut db, &again);
    assert_eq!(r, Err(Error::DuplicateId));
    // the existing row is unchanged
    let found: Article = find_record_by_id(&db, 7).unwrap();
    pers_assert_article_eq(&found, &a);
    let all: Vec<Article> = fetch_all_records(&db).unwrap();
    assert_eq!(all.len(), 1);
}

#[test]
fn update_missing_id_succeeds_and_changes_nothing() {
    let mut db = pers_open_db();
    insert_record(&mut db, &pers_article(1)).unwrap();
    let ghostly = pers_article(99);
    let r = update_record(&mut db, &ghostly);
    assert_eq!(r, Ok(()));
    let all: Vec<Article> = fetch_all_records(&db).unwrap();
    assert_eq!(all.len(), 1);
    pers_assert_article_eq(&all[0], &pers_article(1));
    assert!(matches!(
        find_record_by_id::<Article>(&db, 99),
        Err(Error::NotFound)
    ));
}

#[test]
fn update_overwrites_full_row() {
    let mut db = pers_open_db();
    insert_record(&mut db, &pers_article(5)).unwrap();
    let mut changed = pers_article(5);
    changed.price = 1234;
    changed.stock = -3;
    changed.category = None;
    update_record(&mut db, &changed).unwrap();
    let found: Article = find_record_by_id(&db, 5).unwrap();
    pers_assert_article_eq(&found, &changed);
}

#[test]
fn delete_by_id_removes_one_article() {
    let mut db = pers_open_db();
    insert_record(&mut db, &pers_article(1)).unwrap();
    insert_record(&mut db, &pers_article(2)).unwrap();
    delete_record_by_id::<Article>(&mut db, &Some(1)).unwrap();
    let all: Vec<Article> = fetch_all_records(&db).unwrap();
    assert_eq!(all.len(), 1);
    assert_eq!(all[0].article_id, 2);
}

#[test]
fn delete_without_id_clears_orders_and_join_rows() {
    let mut db = pers_open_db();
    insert_record(&mut db, &pers_customer(1)).unwrap();
    insert_record(&mut db, &pers_article(10)).unwrap();
    let order_a = Order::new(
        100,
        pers_customer(1),
        vec![OrderItem::new(pers_article(10), 1)],
        "2024-03-01".to_string(),
        OrderType::Sale,
        OrderStatus::Pending,
    );
    let order_b = Order::new(
        101,
        pers_customer(1),
        vec![OrderItem::new(pers_article(10), 4)],
        "2024-03-02".to_string(),
        OrderType::Return,
        OrderStatus::Completed,
    );
    insert_record(&mut db, &order_a).unwrap();
    insert_record(&mut db, &order_b).unwrap();
    delete_record_by_id::<Order>(&mut db, &None).unwrap();
    let all: Vec<Order> = fetch_all_records(&db).unwrap();
    assert!(all.is_empty());
    // the join rows are gone too
    assert!(fetch_order_items(&db, 100).unwrap().is_empty());
    assert!(fetch_order_items(&db, 101).unwrap().is_empty());
    // articles and customers are untouched
    let articles: Vec<Article> = fetch_all_records(&db).unwrap();
    assert_eq!(articles.len(), 1);
    let customers: Vec<Customer> = fetch_all_records(&db).unwrap();
    assert_eq!(customers.len(), 1);
}

#[test]
fn order_lifecycle_join_rows() {
    let mut db = pers_open_db();
    insert_record(&mut db, &pers_customer(1)).unwrap();
    insert_record(&mut db, &pers_article(10)).unwrap();
    insert_record(&mut db, &pers_article(11)).unwrap();
    insert_record(&mut db, &pers_article(12)).unwrap();
    let order = Order::new(
        200,
        pers_customer(1),
        vec![
            OrderItem::new(pers_article(10), 1),
            OrderItem::new(pers_article(11), 2),
            OrderItem::new(pers_article(12), 3),
        ],
        "2024-05-05".to_string(),
        OrderType::Sale,
        OrderStatus::Shipped,
    );
    insert_record(&mut db, &order).unwrap();
    // inserting an order with three line items writes exactly three join rows
    let items = fetch_order_items(&db, 200).unwrap();
    assert_eq!(items.len(), 3);
    // deleting the order removes its row and exactly those join rows
    delete_record_by_id::<Order>(&mut db, &Some(200)).unwrap();
    assert!(matches!(find_record_by_id::<Order>(&db, 200), Err(Error::NotFound)));
    assert!(fetch_order_items(&db, 200).unwrap().is_empty());
    // articles and the customer are left untouched
    let articles: Vec<Article> = fetch_all_records(&db).unwrap();
    assert_eq!(articles.len(), 3);
    let customers: Vec<Customer> = fetch_all_records(&db).unwrap();
    assert_eq!(customers.len(), 1);
}

#[test]
fn search_goes_through_the_generic_lookup() {
    let mut db = pers_open_db();
    let a = pers_article(9);
    insert_record(&mut db, &a).unwrap();
    let found = <Article as Searchable>::search(&db, 9).unwrap();
    pers_assert_article_eq(&found, &a);
    assert!(matches!(<Customer as Searchable>::search(&db, 9), Err(Error::NotFound)));
}

#[test]
fn find_missing_id_is_not_found() {
    let db = pers_open_db();
    assert!(matches!(
        find_record_by_id::<Article>(&db, 42),
        Err(Error::NotFound)
    ));
}

#[test]
fn missing_tables_report_sql_failure() {
    // a connection whose database was never initialized
    let conn = rusqlite::Connection::open_in_memory().unwrap();
    let db = Db::from_connection(conn);
    assert!(matches!(
        fetch_all_records::<inventory_core::types::Article>(&db),
        Err(Error::SqlExecution)
    ));
}

#[test]
fn corrupted_enum_string_reports_invalid_enum_value() {
    // set up the schema and a corrupted order row before handing the
    // connection to the library
    let conn = rusqlite::Connection::open_in_memory().unwrap();
    conn.execute_batch(
        "CREATE TABLE article (id INTEGER PRIMARY KEY, article_id INTEGER NOT NULL,
             name TEXT NOT NULL, price INTEGER NOT NULL, manufacturer TEXT NOT NULL,
             stock INTEGER NOT NULL, category TEXT);
         CREATE TABLE customer (id INTEGER PRIMARY KEY, customer_id INTEGER NOT NULL,
             first_name TEXT NOT NULL, last_name TEXT NOT NULL, street TEXT NOT NULL,
             location TEXT NOT NULL, zip_code INTEGER NOT NULL, email TEXT NOT NULL);
         CREATE TABLE orders (id INTEGER PRIMARY KEY, order_id INTEGER NOT NULL,
             customer_id INTEGER NOT NULL, date TEXT NOT NULL, order_type TEXT NOT NULL,
             status TEXT NOT NULL);
         CREATE TABLE order_article (id INTEGER PRIMARY KEY, order_id INTEGER NOT NULL,
             article_id INTEGER NOT NULL, quantity INTEGER NOT NULL);
         INSERT INTO customer (customer_id, first_name, last_name, street, location, zip_code, email)
             VALUES (1, 'Ada', 'Lovelace', 'Main Street 1', 'Springfield', 12345, 'ada@example.org');
         INSERT INTO orders (order_id, customer_id, date, order_type, status)
             VALUES (300, 1, '2024-06-06', 'NotAType', 'Pending');",
    )
    .unwrap();
    let db = Db::from_connection(conn);
    assert!(matches!(
        find_record_by_id::<Order>(&db, 300),
        Err(Error::InvalidEnumValue)
    ));
}
