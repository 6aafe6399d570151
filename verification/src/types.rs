//! The entity kinds that take part in generic persistence — articles,
//! customers and orders — together with the row shapes their tables hold, the
//! error taxonomy of the whole core, and each kind's implementation of the
//! capability contract.
use crate::db::{
    article_columns, article_id_col, article_table, articles_of, articles_without,
    customer_columns, customer_id_col, customer_table, customers_of, customers_without,
    db_unchanged, exec_delete_articles, exec_delete_customers, exec_delete_item_rows,
    exec_delete_orders, exec_insert_article, exec_insert_customer, exec_insert_item_row,
    exec_insert_order_row, exec_select_article_by_id, exec_select_articles,
    exec_select_customer_by_id, exec_select_customers, exec_select_order_row_by_id,
    exec_select_order_rows, exec_update_article, exec_update_customer, exec_update_order_row,
    find_article_spec, find_customer_spec, find_order_row_spec, has_article_id,
    has_customer_id, has_order_id, items_of, items_without,
    order_columns, order_id_col, order_table, orders_of, orders_without, replace_articles,
    replace_customers, replace_orders, same_but_articles, same_but_customers, same_but_items,
    same_but_orders, Db,
};
use crate::db::{lemma_find_article_has, lemma_find_customer_has, lemma_find_order_row_has};
use crate::operations::{fetch_order_items, find_record_by_id, joined_items};
use crate::sql::{build_select_by_id_sql, strs_view};
use crate::traits::{Insertable, Mappable, Searchable};
use std::collections::HashMap;
use vstd::prelude::*;

verus! {

/// Every failure the core can report.  Connection acquisition happens outside
/// the core, but its failure is part of the shared taxonomy.
#[derive(Clone, Copy, PartialEq, Eq, Structural, Debug)]
pub enum Error {
    /// The connection pool is exhausted or unreachable.
    ConnectionUnavailable,
    /// An insert found the business id already present.
    DuplicateId,
    /// A lookup matched no row.
    NotFound,
    /// A stored order type or status string could not be parsed back.
    InvalidEnumValue,
    /// Any other failure the database reported.
    SqlExecution,
    /// A row handed in for bulk import could not be deserialized.
    Parse,
}

/// An article for sale.  `price` is in cents, so the whole core stays in
/// integer arithmetic.
pub struct Article {
    pub article_id: i32,
    pub name: String,
    pub price: u32,
    pub manufacturer: String,
    pub stock: i32,
    pub category: Option<String>,
}

impl Article {
    pub fn new(
        article_id: i32,
        name: String,
        price: u32,
        manufacturer: String,
        stock: i32,
        category: Option<String>,
    ) -> (r: Article)
        ensures
            r == (Article { article_id, name, price, manufacturer, stock, category }),
    {
        Article { article_id, name, price, manufacturer, stock, category }
    }
}

/// A customer with address fields.
pub struct Customer {
    pub customer_id: i32,
    pub first_name: String,
    pub last_name: String,
    pub street: String,
    pub location: String,
    pub zip_code: i32,
    pub email: String,
}

impl Customer {
    pub fn new(
        customer_id: i32,
        first_name: String,
        last_name: String,
        street: String,
        location: String,
        zip_code: i32,
        email: String,
    ) -> (r: Customer)
        ensures
            r == (Customer {
                customer_id,
                first_name,
                last_name,
                street,
                location,
                zip_code,
                email,
            }),
    {
        Customer { customer_id, first_name, last_name, street, location, zip_code, email }
    }
}

/// One line of an order as it appears in memory: a resolved article and the
/// quantity ordered.
pub struct OrderItem {
    pub article: Article,
    pub quantity: i32,
}

impl OrderItem {
    pub fn new(article: Article, quantity: i32) -> (r: OrderItem)
        ensures
            r == (OrderItem { article, quantity }),
    {
        OrderItem { article, quantity }
    }
}

/// Whether an order is a sale or a return.  Stored as its display-name string.
#[derive(Clone, Copy, PartialEq, Eq, Structural, Debug)]
pub enum OrderType {
    Return,
    Sale,
}

impl OrderType {
    /// What parsing a stored order-type string yields.
    pub open spec fn spec_from_str(s: Seq<char>) -> Option<OrderType> {
        if s == "Return"@ {
            Some(OrderType::Return)
        } else if s == "Sale"@ {
            Some(OrderType::Sale)
        } else {
            None
        }
    }

    /// The display-name string under which a value is stored.
    pub open spec fn spec_str(self) -> Seq<char> {
        match self {
            OrderType::Return => "Return"@,
            OrderType::Sale => "Sale"@,
        }
    }

    pub fn from_str(s: &str) -> (r: Option<OrderType>)
        ensures
            r == OrderType::spec_from_str(s@),
    {
        if str_eq(s, "Return") {
            Some(OrderType::Return)
        } else if str_eq(s, "Sale") {
            Some(OrderType::Sale)
        } else {
            None
        }
    }

    pub fn as_str(&self) -> (r: &'static str)
        ensures
            r@ == self.spec_str(),
    {
        match self {
            OrderType::Return => "Return",
            OrderType::Sale => "Sale",
        }
    }
}

/// How far an order has progressed.  Stored as its display-name string.
#[derive(Clone, Copy, PartialEq, Eq, Structural, Debug)]
pub enum OrderStatus {
    Pending,
    Completed,
    Shipped,
    Delivered,
}

impl OrderStatus {
    /// What parsing a stored status string yields.
    pub open spec fn spec_from_str(s: Seq<char>) -> Option<OrderStatus> {
        if s == "Pending"@ {
            Some(OrderStatus::Pending)
        } else if s == "Completed"@ {
            Some(OrderStatus::Completed)
        } else if s == "Shipped"@ {
            Some(OrderStatus::Shipped)
        } else if s == "Delivered"@ {
            Some(OrderStatus::Delivered)
        } else {
            None
        }
    }

    /// The display-name string under which a value is stored.
    pub open spec fn spec_str(self) -> Seq<char> {
        match self {
            OrderStatus::Pending => "Pending"@,
            OrderStatus::Completed => "Completed"@,
            OrderStatus::Shipped => "Shipped"@,
            OrderStatus::Delivered => "Delivered"@,
        }
    }

    pub fn from_str(s: &str) -> (r: Option<OrderStatus>)
        ensures
            r == OrderStatus::spec_from_str(s@),
    {
        if str_eq(s, "Pending") {
            Some(OrderStatus::Pending)
        } else if str_eq(s, "Completed") {
            Some(OrderStatus::Completed)
        } else if str_eq(s, "Shipped") {
            Some(OrderStatus::Shipped)
        } else if str_eq(s, "Delivered") {
            Some(OrderStatus::Delivered)
        } else {
            None
        }
    }

    pub fn as_str(&self) -> (r: &'static str)
        ensures
            r@ == self.spec_str(),
    {
        match self {
            OrderStatus::Pending => "Pending",
            OrderStatus::Completed => "Completed",
            OrderStatus::Shipped => "Shipped",
            OrderStatus::Delivered => "Delivered",
        }
    }
}

/// An order as the callers see it: the customer resolved to a full value and
/// every line item resolved to an article plus a quantity.
pub struct Order {
    pub order_id: i32,
    pub customer: Customer,
    pub items: Vec<OrderItem>,
    pub date: String,
    pub order_type: OrderType,
    pub status: OrderStatus,
}

impl Order {
    pub fn new(
        order_id: i32,
        customer: Customer,
        items: Vec<OrderItem>,
        date: String,
        order_type: OrderType,
        status: OrderStatus,
    ) -> (r: Order)
        ensures
            r == (Order { order_id, customer, items, date, order_type, status }),
    {
        Order { order_id, customer, items, date, order_type, status }
    }
}

/// An order as its own table holds it: the customer by id and the enumerated
/// fields as display-name strings.  The line items live in the join table.
pub struct OrderRow {
    pub order_id: i32,
    pub customer_id: i32,
    pub date: String,
    pub order_type: String,
    pub status: String,
}

/// One row of the join table: a line item of an order, by ids.
#[derive(Clone, Copy, PartialEq, Eq, Structural, Debug)]
pub struct ItemRow {
    pub order_id: i32,
    pub article_id: i32,
    pub quantity: i32,
}

/// The per-article aggregates of the statistics report.
pub struct ArticleStatistics {
    pub ordered_quantities: HashMap<i32, i128>,
    pub article_revenue: HashMap<i32, i128>,
}

impl ArticleStatistics {
    pub fn new(
        ordered_quantities: HashMap<i32, i128>,
        article_revenue: HashMap<i32, i128>,
    ) -> (r: ArticleStatistics)
        ensures
            r.ordered_quantities == ordered_quantities,
            r.article_revenue == article_revenue,
    {
        ArticleStatistics { ordered_quantities, article_revenue }
    }
}

/// The per-order aggregates of the statistics report.
pub struct OrderStatistics {
    pub total_prices: HashMap<i32, i128>,
}

impl OrderStatistics {
    pub fn new(total_prices: HashMap<i32, i128>) -> (r: OrderStatistics)
        ensures
            r.total_prices == total_prices,
    {
        OrderStatistics { total_prices }
    }
}

/// The per-customer aggregates of the statistics report.
pub struct CustomerStatistics {
    pub number_of_orders: HashMap<i32, u64>,
    pub total_revenue: HashMap<i32, i128>,
    pub most_bought_item: HashMap<i32, String>,
}

impl CustomerStatistics {
    pub fn new(
        number_of_orders: HashMap<i32, u64>,
        total_revenue: HashMap<i32, i128>,
        most_bought_item: HashMap<i32, String>,
    ) -> (r: CustomerStatistics)
        ensures
            r.number_of_orders == number_of_orders,
            r.total_revenue == total_revenue,
            r.most_bought_item == most_bought_item,
    {
        CustomerStatistics { number_of_orders, total_revenue, most_bought_item }
    }
}

/// The full statistics report.
pub struct Statistics {
    pub article_statistics: ArticleStatistics,
    pub order_statistics: OrderStatistics,
    pub customer_statistics: CustomerStatistics,
}

impl Statistics {
    pub fn new(
        article_statistics: ArticleStatistics,
        order_statistics: OrderStatistics,
        customer_statistics: CustomerStatistics,
    ) -> (r: Statistics)
        ensures
            r.article_statistics == article_statistics,
            r.order_statistics == order_statistics,
            r.customer_statistics == customer_statistics,
    {
        Statistics { article_statistics, order_statistics, customer_statistics }
    }
}

/// An owned copy of an optional string, equal to the original.
pub fn clone_opt_string(s: &Option<String>) -> (r: Option<String>)
    ensures
        r == *s,
{
    match s {
        Some(x) => Some(x.clone()),
        None => None,
    }
}

/// An owned copy of an article, equal to the original.
pub fn clone_article(a: &Article) -> (r: Article)
    ensures
        r == *a,
{
    Article {
        article_id: a.article_id,
        name: a.name.clone(),
        price: a.price,
        manufacturer: a.manufacturer.clone(),
        stock: a.stock,
        category: clone_opt_string(&a.category),
    }
}

/// An owned copy of a customer, equal to the original.
pub fn clone_customer(c: &Customer) -> (r: Customer)
    ensures
        r == *c,
{
    Customer {
        customer_id: c.customer_id,
        first_name: c.first_name.clone(),
        last_name: c.last_name.clone(),
        street: c.street.clone(),
        location: c.location.clone(),
        zip_code: c.zip_code,
        email: c.email.clone(),
    }
}

/// The join rows an order decomposes into, in line-item order.
pub open spec fn item_rows_of(o: Order) -> Seq<ItemRow> {
    o.items@.map_values(
        |it: OrderItem| ItemRow {
            order_id: o.order_id,
            article_id: it.article.article_id,
            quantity: it.quantity,
        },
    )
}

/// The article table's column list as an executable vector.
pub fn article_columns_vec() -> (r: Vec<&'static str>)
    ensures
        strs_view(r@) == article_columns(),
        r@.len() <= 7,
{
    let r: Vec<&'static str> = vec![
        "article_id",
        "name",
        "price",
        "manufacturer",
        "stock",
        "category",
    ];
    proof {
        assert(strs_view(r@) =~= article_columns());
    }
    r
}

/// The customer table's column list as an executable vector.
pub fn customer_columns_vec() -> (r: Vec<&'static str>)
    ensures
        strs_view(r@) == customer_columns(),
        r@.len() <= 7,
{
    let r: Vec<&'static str> = vec![
        "customer_id",
        "first_name",
        "last_name",
        "street",
        "location",
        "zip_code",
        "email",
    ];
    proof {
        assert(strs_view(r@) =~= customer_columns());
    }
    r
}

/// The orders table's column list as an executable vector.
pub fn order_columns_vec() -> (r: Vec<&'static str>)
    ensures
        strs_view(r@) == order_columns(),
        r@.len() <= 7,
{
    let r: Vec<&'static str> = vec!["order_id", "customer_id", "date", "order_type", "status"];
    proof {
        assert(strs_view(r@) =~= order_columns());
    }
    r
}

impl Insertable for Article {
    type Row = Article;

    open spec fn table_name_spec() -> Seq<char> {
        article_table()
    }

    open spec fn columns_spec() -> Seq<Seq<char>> {
        article_columns()
    }

    open spec fn id_column_spec() -> Seq<char> {
        article_id_col()
    }

    open spec fn row_id(row: Article) -> i32 {
        row.article_id
    }

    open spec fn id_spec(self) -> i32 {
        self.article_id
    }

    open spec fn is_row_of(self, row: Article) -> bool {
        row == self
    }

    open spec fn table_view(db: Db) -> Seq<Article> {
        articles_of(db)
    }

    open spec fn has_id(db: Db, id: i32) -> bool {
        has_article_id(articles_of(db), id)
    }

    open spec fn find_row_spec(db: Db, id: i32) -> Option<Article> {
        find_article_spec(db, id)
    }

    open spec fn insert_row_effect(row: Article, pre: Db, post: Db) -> bool {
        articles_of(post) == articles_of(pre).push(row) && same_but_articles(pre, post)
    }

    open spec fn update_effect(row: Article, pre: Db, post: Db) -> bool {
        articles_of(post) == replace_articles(articles_of(pre), row) && same_but_articles(
            pre,
            post,
        )
    }

    open spec fn delete_rows_effect(id: Option<i32>, pre: Db, post: Db) -> bool {
        (match id {
            Some(i) => articles_of(post) == articles_without(articles_of(pre), i),
            None => articles_of(post) == Seq::<Article>::empty(),
        }) && same_but_articles(pre, post)
    }

    open spec fn post_insert_ok(item: Article, pre: Db, post: Db) -> bool {
        db_unchanged(pre, post)
    }

    open spec fn post_insert_partial(item: Article, pre: Db, post: Db) -> bool {
        db_unchanged(pre, post)
    }

    open spec fn post_delete_ok(id: Option<i32>, pre: Db, post: Db) -> bool {
        db_unchanged(pre, post)
    }

    proof fn lemma_find_matches_has(db: Db, id: i32) {
        lemma_find_article_has(db, id);
    }

    fn table_name() -> (r: &'static str) {
        "article"
    }

    fn columns() -> (r: Vec<&'static str>) {
        article_columns_vec()
    }

    fn id_column() -> (r: &'static str) {
        "article_id"
    }

    fn id_value(&self) -> (r: i32) {
        self.article_id
    }

    fn to_row(&self) -> (r: Article) {
        clone_article(self)
    }

    fn exec_insert(db: &mut Db, sql: &str, row: &Article) -> (r: Result<(), Error>) {
        exec_insert_article(db, sql, row)
    }

    fn exec_update(db: &mut Db, sql: &str, row: &Article) -> (r: Result<(), Error>) {
        exec_update_article(db, sql, row)
    }

    fn exec_delete(db: &mut Db, sql: &str, id: Option<i32>) -> (r: Result<(), Error>) {
        exec_delete_articles(db, sql, id)
    }

    fn exec_select_all(db: &Db, sql: &str) -> (r: Result<Vec<Article>, Error>) {
        exec_select_articles(db, sql)
    }

    fn exec_select_by_id(db: &Db, sql: &str, id: i32) -> (r: Result<Option<Article>, Error>) {
        exec_select_article_by_id(db, sql, id)
    }

    fn check_duplicate(db: &Db, id: i32) -> (r: Result<bool, Error>) {
        let sql = build_select_by_id_sql("article", &article_columns_vec(), "article_id");
        match exec_select_article_by_id(db, sql.as_str(), id) {
            Ok(opt) => {
                proof {
                    lemma_find_article_has(*db, id);
                }
                Ok(opt.is_some())
            },
            Err(e) => Err(e),
        }
    }

    fn post_insert(&self, db: &mut Db) -> (r: Result<(), Error>) {
        Ok(())
    }

    fn post_delete(db: &mut Db, id: Option<i32>) -> (r: Result<(), Error>) {
        Ok(())
    }
}

impl Mappable for Article {
    open spec fn from_row_ok(db: Db, row: Article, e: Article) -> bool {
        e == row
    }

    open spec fn from_row_err(db: Db, row: Article, err: Error) -> bool {
        false
    }

    fn from_row(db: &Db, row: &Article) -> (r: Result<Article, Error>) {
        Ok(clone_article(row))
    }
}

impl Searchable for Article {
    fn search(db: &Db, id: i32) -> (r: Result<Article, Error>) {
        find_record_by_id(db, id)
    }
}

impl Insertable for Customer {
    type Row = Customer;

    open spec fn table_name_spec() -> Seq<char> {
        customer_table()
    }

    open spec fn columns_spec() -> Seq<Seq<char>> {
        customer_columns()
    }

    open spec fn id_column_spec() -> Seq<char> {
        customer_id_col()
    }

    open spec fn row_id(row: Customer) -> i32 {
        row.customer_id
    }

    open spec fn id_spec(self) -> i32 {
        self.customer_id
    }

    open spec fn is_row_of(self, row: Customer) -> bool {
        row == self
    }

    open spec fn table_view(db: Db) -> Seq<Customer> {
        customers_of(db)
    }

    open spec fn has_id(db: Db, id: i32) -> bool {
        has_customer_id(customers_of(db), id)
    }

    open spec fn find_row_spec(db: Db, id: i32) -> Option<Customer> {
        find_customer_spec(db, id)
    }

    open spec fn insert_row_effect(row: Customer, pre: Db, post: Db) -> bool {
        customers_of(post) == customers_of(pre).push(row) && same_but_customers(pre, post)
    }

    open spec fn update_effect(row: Customer, pre: Db, post: Db) -> bool {
        customers_of(post) == replace_customers(customers_of(pre), row) && same_but_customers(
            pre,
            post,
        )
    }

    open spec fn delete_rows_effect(id: Option<i32>, pre: Db, post: Db) -> bool {
        (match id {
            Some(i) => customers_of(post) == customers_without(customers_of(pre), i),
            None => customers_of(post) == Seq::<Customer>::empty(),
        }) && same_but_customers(pre, post)
    }

    open spec fn post_insert_ok(item: Customer, pre: Db, post: Db) -> bool {
        db_unchanged(pre, post)
    }

    open spec fn post_insert_partial(item: Customer, pre: Db, post: Db) -> bool {
        db_unchanged(pre, post)
    }

    open spec fn post_delete_ok(id: Option<i32>, pre: Db, post: Db) -> bool {
        db_unchanged(pre, post)
    }

    proof fn lemma_find_matches_has(db: Db, id: i32) {
        lemma_find_customer_has(db, id);
    }

    fn table_name() -> (r: &'static str) {
        "customer"
    }

    fn columns() -> (r: Vec<&'static str>) {
        customer_columns_vec()
    }

    fn id_column() -> (r: &'static str) {
        "customer_id"
    }

    fn id_value(&self) -> (r: i32) {
        self.customer_id
    }

    fn to_row(&self) -> (r: Customer) {
        clone_customer(self)
    }

    fn exec_insert(db: &mut Db, sql: &str, row: &Customer) -> (r: Result<(), Error>) {
        exec_insert_customer(db, sql, row)
    }

    fn exec_update(db: &mut Db, sql: &str, row: &Customer) -> (r: Result<(), Error>) {
        exec_update_customer(db, sql, row)
    }

    fn exec_delete(db: &mut Db, sql: &str, id: Option<i32>) -> (r: Result<(), Error>) {
        exec_delete_customers(db, sql, id)
    }

    fn exec_select_all(db: &Db, sql: &str) -> (r: Result<Vec<Customer>, Error>) {
        exec_select_customers(db, sql)
    }

    fn exec_select_by_id(db: &Db, sql: &str, id: i32) -> (r: Result<Option<Customer>, Error>) {
        exec_select_customer_by_id(db, sql, id)
    }

    fn check_duplicate(db: &Db, id: i32) -> (r: Result<bool, Error>) {
        let sql = build_select_by_id_sql("customer", &customer_columns_vec(), "customer_id");
        match exec_select_customer_by_id(db, sql.as_str(), id) {
            Ok(opt) => {
                proof {
                    lemma_find_customer_has(*db, id);
                }
                Ok(opt.is_some())
            },
            Err(e) => Err(e),
        }
    }

    fn post_insert(&self, db: &mut Db) -> (r: Result<(), Error>) {
        Ok(())
    }

    fn post_delete(db: &mut Db, id: Option<i32>) -> (r: Result<(), Error>) {
        Ok(())
    }
}

impl Mappable for Customer {
    open spec fn from_row_ok(db: Db, row: Customer, e: Customer) -> bool {
        e == row
    }

    open spec fn from_row_err(db: Db, row: Customer, err: Error) -> bool {
        false
    }

    fn from_row(db: &Db, row: &Customer) -> (r: Result<Customer, Error>) {
        Ok(clone_customer(row))
    }
}

impl Searchable for Customer {
    fn search(db: &Db, id: i32) -> (r: Result<Customer, Error>) {
        find_record_by_id(db, id)
    }
}

impl Insertable for Order {
    type Row = OrderRow;

    open spec fn table_name_spec() -> Seq<char> {
        order_table()
    }

    open spec fn columns_spec() -> Seq<Seq<char>> {
        order_columns()
    }

    open spec fn id_column_spec() -> Seq<char> {
        order_id_col()
    }

    open spec fn row_id(row: OrderRow) -> i32 {
        row.order_id
    }

    open spec fn id_spec(self) -> i32 {
        self.order_id
    }

    open spec fn is_row_of(self, row: OrderRow) -> bool {
        &&& row.order_id == self.order_id
        &&& row.customer_id == self.customer.customer_id
        &&& row.date == self.date
        &&& row.order_type@ == self.order_type.spec_str()
        &&& row.status@ == self.status.spec_str()
    }

    open spec fn table_view(db: Db) -> Seq<OrderRow> {
        orders_of(db)
    }

    open spec fn has_id(db: Db, id: i32) -> bool {
        has_order_id(orders_of(db), id)
    }

    open spec fn find_row_spec(db: Db, id: i32) -> Option<OrderRow> {
        find_order_row_spec(db, id)
    }

    open spec fn insert_row_effect(row: OrderRow, pre: Db, post: Db) -> bool {
        orders_of(post) == orders_of(pre).push(row) && same_but_orders(pre, post)
    }

    open spec fn update_effect(row: OrderRow, pre: Db, post: Db) -> bool {
        orders_of(post) == replace_orders(orders_of(pre), row) && same_but_orders(pre, post)
    }

    open spec fn delete_rows_effect(id: Option<i32>, pre: Db, post: Db) -> bool {
        (match id {
            Some(i) => orders_of(post) == orders_without(orders_of(pre), i),
            None => orders_of(post) == Seq::<OrderRow>::empty(),
        }) && same_but_orders(pre, post)
    }

    open spec fn post_insert_ok(item: Order, pre: Db, post: Db) -> bool {
        items_of(post) == items_of(pre) + item_rows_of(item) && same_but_items(pre, post)
    }

    open spec fn post_insert_partial(item: Order, pre: Db, post: Db) -> bool {
        exists|k: int|
            0 <= k <= item.items@.len() && items_of(post) == items_of(pre) + #[trigger] item_rows_of(
                item,
            ).take(k) && same_but_items(pre, post)
    }

    open spec fn post_delete_ok(id: Option<i32>, pre: Db, post: Db) -> bool {
        (match id {
            Some(i) => items_of(post) == items_without(items_of(pre), i),
            None => items_of(post) == Seq::<ItemRow>::empty(),
        }) && same_but_items(pre, post)
    }

    proof fn lemma_find_matches_has(db: Db, id: i32) {
        lemma_find_order_row_has(db, id);
    }

    fn table_name() -> (r: &'static str) {
        "orders"
    }

    fn columns() -> (r: Vec<&'static str>) {
        order_columns_vec()
    }

    fn id_column() -> (r: &'static str) {
        "order_id"
    }

    fn id_value(&self) -> (r: i32) {
        self.order_id
    }

    fn to_row(&self) -> (r: OrderRow) {
        OrderRow {
            order_id: self.order_id,
            customer_id: self.customer.customer_id,
            date: self.date.clone(),
            order_type: String::from_str(self.order_type.as_str()),
            status: String::from_str(self.status.as_str()),
        }
    }

    fn exec_insert(db: &mut Db, sql: &str, row: &OrderRow) -> (r: Result<(), Error>) {
        exec_insert_order_row(db, sql, row)
    }

    fn exec_update(db: &mut Db, sql: &str, row: &OrderRow) -> (r: Result<(), Error>) {
        exec_update_order_row(db, sql, row)
    }

    fn exec_delete(db: &mut Db, sql: &str, id: Option<i32>) -> (r: Result<(), Error>) {
        exec_delete_orders(db, sql, id)
    }

    fn exec_select_all(db: &Db, sql: &str) -> (r: Result<Vec<OrderRow>, Error>) {
        exec_select_order_rows(db, sql)
    }

    fn exec_select_by_id(db: &Db, sql: &str, id: i32) -> (r: Result<Option<OrderRow>, Error>) {
        exec_select_order_row_by_id(db, sql, id)
    }

    fn check_duplicate(db: &Db, id: i32) -> (r: Result<bool, Error>) {
        let sql = build_select_by_id_sql("orders", &order_columns_vec(), "order_id");
        match exec_select_order_row_by_id(db, sql.as_str(), id) {
            Ok(opt) => {
                proof {
                    lemma_find_order_row_has(*db, id);
                }
                Ok(opt.is_some())
            },
            Err(e) => Err(e),
        }
    }

    /// Writes one join row per line item; a failure leaves the rows written
    /// so far in place.
    fn post_insert(&self, db: &mut Db) -> (r: Result<(), Error>) {
        let ghost pre = *db;
        proof {
            assert(items_of(pre) + item_rows_of(*self).take(0) =~= items_of(pre));
        }
        let n = self.items.len();
        let mut i: usize = 0;
        while i < n
            invariant
                pre == *old(db),
                n == self.items@.len(),
                i <= n,
                items_of(*db) == items_of(pre) + item_rows_of(*self).take(i as int),
                same_but_items(pre, *db),
            decreases n - i,
        {
            let row = ItemRow {
                order_id: self.order_id,
                article_id: self.items[i].article.article_id,
                quantity: self.items[i].quantity,
            };
            match exec_insert_item_row(db, row) {
                Ok(_) => {},
                Err(e) => {
                    proof {
                        assert(items_of(*db) == items_of(pre) + item_rows_of(*self).take(
                            i as int,
                        ));
                        assert(same_but_items(pre, *db));
                        assert(Self::post_insert_partial(*self, pre, *db));
                    }
                    return Err(e);
                },
            }
            proof {
                assert(item_rows_of(*self)[i as int] == row);
                assert(item_rows_of(*self).take(i as int + 1) =~= item_rows_of(*self).take(
                    i as int,
                ).push(row));
                assert(items_of(*db) =~= items_of(pre) + item_rows_of(*self).take(i as int + 1));
            }
            i = i + 1;
        }
        proof {
            assert(item_rows_of(*self).take(n as int) =~= item_rows_of(*self));
        }
        Ok(())
    }

    /// Drops the join rows of the given order, or of every order.
    fn post_delete(db: &mut Db, id: Option<i32>) -> (r: Result<(), Error>) {
        exec_delete_item_rows(db, id)
    }
}

impl Mappable for Order {
    open spec fn from_row_ok(db: Db, row: OrderRow, e: Order) -> bool {
        &&& e.order_id == row.order_id
        &&& e.items@ == joined_items(db, row.order_id)
        &&& find_customer_spec(db, row.customer_id) == Some(e.customer)
        &&& e.date == row.date
        &&& OrderType::spec_from_str(row.order_type@) == Some(e.order_type)
        &&& OrderStatus::spec_from_str(row.status@) == Some(e.status)
    }

    open spec fn from_row_err(db: Db, row: OrderRow, err: Error) -> bool {
        ||| err == Error::SqlExecution
        ||| err == Error::NotFound && find_customer_spec(db, row.customer_id) is None
        ||| err == Error::InvalidEnumValue && (OrderType::spec_from_str(row.order_type@) is None
            || OrderStatus::spec_from_str(row.status@) is None)
    }

    /// Three dependent reads: the join rows resolved into line items, the
    /// customer resolved by id, and the enumerated fields parsed back from
    /// their stored strings.
    fn from_row(db: &Db, row: &OrderRow) -> (r: Result<Order, Error>) {
        let order_id = row.order_id;
        let items = match fetch_order_items(db, order_id) {
            Ok(v) => v,
            Err(e) => {
                return Err(e);
            },
        };
        let customer = match find_record_by_id::<Customer>(db, row.customer_id) {
            Ok(c) => c,
            Err(e) => {
                return Err(e);
            },
        };
        let date = row.date.clone();
        let order_type = match OrderType::from_str(row.order_type.as_str()) {
            Some(t) => t,
            None => {
                return Err(Error::InvalidEnumValue);
            },
        };
        let status = match OrderStatus::from_str(row.status.as_str()) {
            Some(s) => s,
            None => {
                return Err(Error::InvalidEnumValue);
            },
        };
        Ok(Order { order_id, customer, items, date, order_type, status })
    }
}

impl Searchable for Order {
    fn search(db: &Db, id: i32) -> (r: Result<Order, Error>) {
        find_record_by_id(db, id)
    }
}

/// String equality over the character sequences two string slices denote.
pub fn str_eq(a: &str, b: &str) -> (r: bool)
    ensures
        r == (a@ == b@),
{
    let owned_a: String = a.to_owned();
    let owned_b: String = b.to_owned();
    owned_a == owned_b
}

} // verus!
