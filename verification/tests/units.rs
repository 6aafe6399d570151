use inventory_core::html::{cents_to_string, get_html, i64_text, u128_text};
use inventory_core::sql::{
    build_delete_all_sql, build_delete_by_id_sql, build_insert_sql, build_select_all_sql,
    build_select_by_id_sql, build_update_sql,
};
use inventory_core::types::{
    Article, Customer, Order, OrderItem, OrderStatus, OrderType,
};

#[test]
fn order_type_round_trips_through_strings() {
    assert_eq!(OrderType::from_str("Sale"), Some(OrderType::Sale));
    assert_eq!(OrderType::from_str("Return"), Some(OrderType::Return));
    assert_eq!(OrderType::Sale.as_str(), "Sale");
    assert_eq!(OrderType::Return.as_str(), "Return");
    assert_eq!(OrderType::from_str(OrderType::Sale.as_str()), Some(OrderType::Sale));
    assert_eq!(OrderType::from_str(OrderType::Return.as_str()), Some(OrderType::Return));
    assert_eq!(OrderType::from_str("sale"), None);
    assert_eq!(OrderType::from_str(""), None);
}

#[test]
fn order_status_round_trips_through_strings() {
    for status in [
        OrderStatus::Pending,
        OrderStatus::Completed,
        OrderStatus::Shipped,
        OrderStatus::Delivered,
    ] {
        assert_eq!(OrderStatus::from_str(status.as_str()), Some(status));
    }
    assert_eq!(OrderStatus::from_str("Pending"), Some(OrderStatus::Pending));
    assert_eq!(OrderStatus::from_str("Cancelled"), None);
}

#[test]
fn insert_sql_lists_columns_and_placeholders() {
    let cols = vec!["article_id", "name", "price", "manufacturer", "stock", "category"];
    assert_eq!(
        build_insert_sql("article", &cols),
        "INSERT INTO article (article_id, name, price, manufacturer, stock, category) \
         VALUES (?1, ?2, ?3, ?4, ?5, ?6)"
    );
}

#[test]
fn update_sql_reassigns_every_column_including_the_id() {
    let cols = vec!["order_id", "customer_id", "date", "order_type", "status"];
    assert_eq!(
        build_update_sql("orders", &cols, "order_id"),
        "UPDATE orders SET order_id = ?2, customer_id = ?3, date = ?4, order_type = ?5, \
         status = ?6 WHERE order_id = ?1"
    );
}

#[test]
fn select_and_delete_sql_shapes() {
    let cols = vec!["customer_id", "email"];
    assert_eq!(build_select_all_sql("customer", &cols), "SELECT customer_id,email FROM customer");
    assert_eq!(
        build_select_by_id_sql("customer", &cols, "customer_id"),
        "SELECT customer_id,email FROM customer WHERE customer_id = ?1"
    );
    assert_eq!(build_delete_all_sql("customer"), "DELETE FROM customer");
    assert_eq!(
        build_delete_by_id_sql("customer", "customer_id"),
        "DELETE FROM customer WHERE customer_id = ?1"
    );
}

#[test]
fn cents_render_with_two_decimals() {
    assert_eq!(cents_to_string(0), "0.00");
    assert_eq!(cents_to_string(5), "0.05");
    assert_eq!(cents_to_string(1000), "10.00");
    assert_eq!(cents_to_string(5000), "50.00");
    assert_eq!(cents_to_string(123456), "1234.56");
    assert_eq!(cents_to_string(-5), "-0.05");
    assert_eq!(cents_to_string(-123456), "-1234.56");
}

#[test]
fn integer_rendering() {
    assert_eq!(u128_text(0), "0");
    assert_eq!(u128_text(907), "907");
    assert_eq!(i64_text(-123), "-123");
    assert_eq!(i64_text(42), "42");
}

#[test]
fn order_confirmation_html_carries_the_order() {
    let customer = Customer::new(
        1,
        "Ada".to_string(),
        "Lovelace".to_string(),
        "Main Street 1".to_string(),
        "Springfield".to_string(),
        12345,
        "ada@example.org".to_string(),
    );
    let article = Article::new(7, "widget".to_string(), 1000, "factory".to_string(), 3, None);
    let order = Order::new(
        500,
        customer,
        vec![OrderItem::new(article, 3)],
        "2024-01-02".to_string(),
        OrderType::Sale,
        OrderStatus::Pending,
    );
    let html = get_html(&order);
    assert!(html.contains("Ada Lovelace"));
    assert!(html.contains("Main Street 1"));
    assert!(html.contains("ada@example.org"));
    assert!(html.contains("<strong>Order-ID:</strong> 500"));
    assert!(html.contains("2024-01-02"));
    assert!(html.contains("<td>widget</td>"));
    // the line: 3 x 10.00, and the total
    assert!(html.contains("10.00 \u{20ac}"));
    assert!(html.contains("30.00 \u{20ac}"));
}
