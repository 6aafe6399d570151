use inventory_core::db::{initialize_tables, Db};
use inventory_core::operations::insert_record;
use inventory_core::statistics::{
    article_order_count, get_article_revenue, get_most_bought_item_customer,
    get_ordered_quantities, get_total_orders_customer, get_total_prices,
    get_total_revenue_customer,
};
use inventory_core::stats::get_statistics;
use inventory_core::types::{Article, Customer, Order, OrderItem, OrderStatus, OrderType};

fn agg_open_db() -> Db {
    let conn = rusqlite::Connection::open_in_memory().unwrap();
    let mut db = Db::from_connection(conn);
    initialize_tables(&mut db).unwrap();
    db
}

fn agg_article(id: i32, price_cents: u32, name: &str) -> Article {
    Article::new(id, name.to_string(), price_cents, "factory".to_string(), 100, None)
}

fn agg_customer(id: i32) -> Customer {
    Customer::new(
        id,
        "Grace".to_string(),
        "Hopper".to_string(),
        "Harbor Road 2".to_string(),
        "Arlington".to_string(),
        22200,
        "grace@example.org".to_string(),
    )
}

fn agg_order(id: i32, customer: Customer, items: Vec<OrderItem>) -> Order {
    Order::new(id, customer, items, "2024-07-07".to_string(), OrderType::Sale, OrderStatus::Pending)
}

/// An article priced 10.00 with two orders of quantities 2 and 3 yields
/// revenue 50.00 — 5000 cents.
#[test]
fn article_revenue_two_orders() {
    let mut db = agg_open_db();
    insert_record(&mut db, &agg_customer(1)).unwrap();
    insert_record(&mut db, &agg_article(1, 1000, "widget")).unwrap();
    let o1 = agg_order(10, agg_customer(1), vec![OrderItem::new(agg_article(1, 1000, "widget"), 2)]);
    let o2 = agg_order(11, agg_customer(1), vec![OrderItem::new(agg_article(1, 1000, "widget"), 3)]);
    insert_record(&mut db, &o1).unwrap();
    insert_record(&mut db, &o2).unwrap();
    let revenue = get_article_revenue(&db).unwrap();
    assert_eq!(revenue.get(&1), Some(&5000i128));
}

#[test]
fn ordered_quantities_sum_per_article() {
    let mut db = agg_open_db();
    insert_record(&mut db, &agg_customer(1)).unwrap();
    insert_record(&mut db, &agg_article(1, 500, "widget")).unwrap();
    insert_record(&mut db, &agg_article(2, 700, "gadget")).unwrap();
    let o1 = agg_order(
        10,
        agg_customer(1),
        vec![
            OrderItem::new(agg_article(1, 500, "widget"), 2),
            OrderItem::new(agg_article(2, 700, "gadget"), 4),
        ],
    );
    let o2 = agg_order(11, agg_customer(1), vec![OrderItem::new(agg_article(1, 500, "widget"), 5)]);
    insert_record(&mut db, &o1).unwrap();
    insert_record(&mut db, &o2).unwrap();
    let quantities = get_ordered_quantities(&db).unwrap();
    assert_eq!(quantities.get(&1), Some(&7i128));
    assert_eq!(quantities.get(&2), Some(&4i128));
    assert_eq!(quantities.get(&3), None);
    // the free-standing alias reports the same counts
    let counted = article_order_count(&db).unwrap();
    assert_eq!(counted.get(&1), Some(&7i128));
    assert_eq!(counted.get(&2), Some(&4i128));
}

#[test]
fn total_price_per_order() {
    let mut db = agg_open_db();
    insert_record(&mut db, &agg_customer(1)).unwrap();
    insert_record(&mut db, &agg_article(1, 1000, "widget")).unwrap();
    insert_record(&mut db, &agg_article(2, 250, "gadget")).unwrap();
    let o = agg_order(
        10,
        agg_customer(1),
        vec![
            OrderItem::new(agg_article(1, 1000, "widget"), 2),
            OrderItem::new(agg_article(2, 250, "gadget"), 4),
        ],
    );
    insert_record(&mut db, &o).unwrap();
    let totals = get_total_prices(&db).unwrap();
    // 2 x 10.00 + 4 x 2.50 = 30.00
    assert_eq!(totals.get(&10), Some(&3000i128));
}

/// A customer with zero orders appears in the revenue map with 0, not as a
/// missing key.
#[test]
fn customer_with_zero_orders_reports_zero_revenue() {
    let mut db = agg_open_db();
    insert_record(&mut db, &agg_customer(1)).unwrap();
    let revenue = get_total_revenue_customer(&db).unwrap();
    assert_eq!(revenue.get(&1), Some(&0i128));
}

#[test]
fn customer_revenue_sums_orders() {
    let mut db = agg_open_db();
    insert_record(&mut db, &agg_customer(1)).unwrap();
    insert_record(&mut db, &agg_article(1, 1000, "widget")).unwrap();
    let o1 = agg_order(10, agg_customer(1), vec![OrderItem::new(agg_article(1, 1000, "widget"), 2)]);
    let o2 = agg_order(11, agg_customer(1), vec![OrderItem::new(agg_article(1, 1000, "widget"), 3)]);
    insert_record(&mut db, &o1).unwrap();
    insert_record(&mut db, &o2).unwrap();
    let revenue = get_total_revenue_customer(&db).unwrap();
    assert_eq!(revenue.get(&1), Some(&5000i128));
}

#[test]
fn order_count_per_customer() {
    let mut db = agg_open_db();
    insert_record(&mut db, &agg_customer(1)).unwrap();
    let mut second = agg_customer(2);
    second.first_name = "Edsger".to_string();
    insert_record(&mut db, &second).unwrap();
    insert_record(&mut db, &agg_article(1, 100, "widget")).unwrap();
    for (oid, cid) in [(10, 1), (11, 1), (12, 2)] {
        let customer = if cid == 1 { agg_customer(1) } else { second_customer() };
        let o = agg_order(oid, customer, vec![OrderItem::new(agg_article(1, 100, "widget"), 1)]);
        insert_record(&mut db, &o).unwrap();
    }
    let counts = get_total_orders_customer(&db).unwrap();
    assert_eq!(counts.get(&1), Some(&2u64));
    assert_eq!(counts.get(&2), Some(&1u64));
    assert_eq!(counts.get(&3), None);
}

fn second_customer() -> Customer {
    let mut c = agg_customer(2);
    c.first_name = "Edsger".to_string();
    c
}

#[test]
fn most_bought_item_names_a_highest_quantity_article() {
    let mut db = agg_open_db();
    insert_record(&mut db, &agg_customer(1)).unwrap();
    insert_record(&mut db, &agg_article(1, 100, "widget")).unwrap();
    insert_record(&mut db, &agg_article(2, 100, "gadget")).unwrap();
    let o = agg_order(
        10,
        agg_customer(1),
        vec![
            OrderItem::new(agg_article(1, 100, "widget"), 2),
            OrderItem::new(agg_article(2, 100, "gadget"), 9),
        ],
    );
    insert_record(&mut db, &o).unwrap();
    let best = get_most_bought_item_customer(&db).unwrap();
    assert_eq!(best.get(&1), Some(&"gadget".to_string()));
}

#[test]
fn most_bought_item_tie_names_one_of_the_tied_articles() {
    let mut db = agg_open_db();
    insert_record(&mut db, &agg_customer(1)).unwrap();
    insert_record(&mut db, &agg_article(1, 100, "widget")).unwrap();
    insert_record(&mut db, &agg_article(2, 100, "gadget")).unwrap();
    let o = agg_order(
        10,
        agg_customer(1),
        vec![
            OrderItem::new(agg_article(1, 100, "widget"), 5),
            OrderItem::new(agg_article(2, 100, "gadget"), 5),
        ],
    );
    insert_record(&mut db, &o).unwrap();
    let best = get_most_bought_item_customer(&db).unwrap();
    // the tie-break is deliberately unspecified: either tied article may win
    let name = best.get(&1).unwrap();
    assert!(name == "widget" || name == "gadget");
}

#[test]
fn statistics_report_assembles_every_aggregate() {
    let mut db = agg_open_db();
    insert_record(&mut db, &agg_customer(1)).unwrap();
    insert_record(&mut db, &agg_article(1, 1000, "widget")).unwrap();
    let o = agg_order(10, agg_customer(1), vec![OrderItem::new(agg_article(1, 1000, "widget"), 2)]);
    insert_record(&mut db, &o).unwrap();
    let report = get_statistics(&db).unwrap();
    assert_eq!(report.article_statistics.ordered_quantities.get(&1), Some(&2i128));
    assert_eq!(report.article_statistics.article_revenue.get(&1), Some(&2000i128));
    assert_eq!(report.order_statistics.total_prices.get(&10), Some(&2000i128));
    assert_eq!(report.customer_statistics.number_of_orders.get(&1), Some(&1u64));
    assert_eq!(report.customer_statistics.total_revenue.get(&1), Some(&2000i128));
    assert_eq!(
        report.customer_statistics.most_bought_item.get(&1),
        Some(&"widget".to_string())
    );
}
