//! Assembly of the full statistics report from the individual aggregates.
use crate::db::{articles_of, items_of, orders_of, Db};
use crate::statistics::{
    article_revenue_ok, customer_revenue_ok, get_article_revenue,
    get_most_bought_item_customer, get_ordered_quantities, get_total_orders_customer,
    get_total_prices, get_total_revenue_customer, most_bought_ok, ordered_quantities_ok,
    orders_per_customer_ok, total_prices_ok,
};
use crate::types::{ArticleStatistics, CustomerStatistics, Error, OrderStatistics, Statistics};
use vstd::prelude::*;

verus! {

/// What the assembled report promises: every aggregate's own contract, on
/// one store state.
pub open spec fn statistics_ok(db: Db, s: Statistics) -> bool {
    &&& ordered_quantities_ok(db, s.article_statistics.ordered_quantities@)
    &&& article_revenue_ok(db, s.article_statistics.article_revenue@)
    &&& total_prices_ok(db, s.order_statistics.total_prices@)
    &&& orders_per_customer_ok(db, s.customer_statistics.number_of_orders@)
    &&& customer_revenue_ok(db, s.customer_statistics.total_revenue@)
    &&& most_bought_ok(db, s.customer_statistics.most_bought_item@)
}

fn get_article_statistics(db: &Db) -> (r: Result<ArticleStatistics, Error>)
    requires
        items_of(*db).len() <= 0x20_0000,
        articles_of(*db).len() <= 0x20_0000,
    ensures
        match r {
            Ok(s) => ordered_quantities_ok(*db, s.ordered_quantities@) && article_revenue_ok(
                *db,
                s.article_revenue@,
            ),
            Err(e) => e == Error::SqlExecution,
        },
{
    let ordered_quantities = get_ordered_quantities(db)?;
    let article_revenue = get_article_revenue(db)?;
    Ok(ArticleStatistics::new(ordered_quantities, article_revenue))
}

fn get_order_statistics(db: &Db) -> (r: Result<OrderStatistics, Error>)
    requires
        items_of(*db).len() <= 0x20_0000,
        articles_of(*db).len() <= 0x20_0000,
    ensures
        match r {
            Ok(s) => total_prices_ok(*db, s.total_prices@),
            Err(e) => e == Error::SqlExecution,
        },
{
    let total_prices = get_total_prices(db)?;
    Ok(OrderStatistics::new(total_prices))
}

fn get_customer_statistics(db: &Db) -> (r: Result<CustomerStatistics, Error>)
    requires
        orders_of(*db).len() <= 0x20_0000,
        items_of(*db).len() <= 0x20_0000,
        articles_of(*db).len() <= 0x20_0000,
    ensures
        match r {
            Ok(s) => orders_per_customer_ok(*db, s.number_of_orders@) && customer_revenue_ok(
                *db,
                s.total_revenue@,
            ) && most_bought_ok(*db, s.most_bought_item@),
            Err(e) => e == Error::SqlExecution,
        },
{
    let number_of_orders = get_total_orders_customer(db)?;
    let total_revenue = get_total_revenue_customer(db)?;
    let most_bought_item = get_most_bought_item_customer(db)?;
    Ok(CustomerStatistics::new(number_of_orders, total_revenue, most_bought_item))
}

/// The full statistics report over the current store state.
pub fn get_statistics(db: &Db) -> (r: Result<Statistics, Error>)
    requires
        orders_of(*db).len() <= 0x20_0000,
        items_of(*db).len() <= 0x20_0000,
        articles_of(*db).len() <= 0x20_0000,
    ensures
        match r {
            Ok(s) => statistics_ok(*db, s),
            Err(e) => e == Error::SqlExecution,
        },
{
    let article_statistics = get_article_statistics(db)?;
    let order_statistics = get_order_statistics(db)?;
    let customer_statistics = get_customer_statistics(db)?;
    Ok(Statistics::new(article_statistics, order_statistics, customer_statistics))
}

} // verus!
