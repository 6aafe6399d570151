//! Read-only statistics, derived from the stored tables alone: quantities
//! ordered and revenue per article, total price per order, and order count,
//! revenue and most-bought article per customer.
//!
//! All money amounts are integers in cents, and the aggregates are computed
//! over the fetched rows by verified folds.  The entry points ask that the
//! tables stay under `0x20_0000` rows each, which keeps every aggregate —
//! including the triple-join revenue sums — inside the 128-bit result type.
use crate::db::{
    articles_of, customers_of, exec_select_all_items, exec_select_articles,
    exec_select_customers, exec_select_order_rows, has_article_id, has_customer_id, items_of,
    orders_of, Db,
};
use crate::sql::{build_select_all_sql, strs_view};
use crate::types::{article_columns_vec, customer_columns_vec, order_columns_vec};
use crate::types::{Article, Customer, Error, ItemRow, OrderRow};
use std::collections::HashMap;
use vstd::prelude::*;

verus! {

broadcast use vstd::std_specs::hash::group_hash_axioms;

/// The total quantity the join rows order of one article.
pub open spec fn qty_sum(items: Seq<ItemRow>, article_id: i32) -> int
    decreases items.len(),
{
    if items.len() == 0 {
        0
    } else {
        qty_sum(items.drop_last(), article_id) + if items.last().article_id == article_id {
            items.last().quantity as int
        } else {
            0
        }
    }
}

/// The summed price of every article row carrying this id.  Matching an
/// article by id sums over all rows with that id, exactly as a join does.
pub open spec fn price_sum(articles: Seq<Article>, article_id: i32) -> int
    decreases articles.len(),
{
    if articles.len() == 0 {
        0
    } else {
        price_sum(articles.drop_last(), article_id) + if articles.last().article_id
            == article_id {
            articles.last().price as int
        } else {
            0
        }
    }
}

/// Some join row orders this article.
pub open spec fn has_item_for_article(items: Seq<ItemRow>, article_id: i32) -> bool {
    exists|j: int| 0 <= j < items.len() && items[j].article_id == article_id
}

/// Some join row belongs to this order.
pub open spec fn has_item_for_order(items: Seq<ItemRow>, order_id: i32) -> bool {
    exists|j: int| 0 <= j < items.len() && items[j].order_id == order_id
}

/// The total price of one order: over its join rows, quantity times the
/// summed price of the rows' article.
pub open spec fn order_total(
    items: Seq<ItemRow>,
    articles: Seq<Article>,
    order_id: i32,
) -> int
    decreases items.len(),
{
    if items.len() == 0 {
        0
    } else {
        order_total(items.drop_last(), articles, order_id) + if items.last().order_id
            == order_id {
            items.last().quantity as int * price_sum(articles, items.last().article_id)
        } else {
            0
        }
    }
}

/// Whether the order joins at least one row against an existing article, so
/// an inner join yields a row for it.
pub open spec fn order_contributes(
    items: Seq<ItemRow>,
    articles: Seq<Article>,
    order_id: i32,
) -> bool {
    exists|j: int|
        0 <= j < items.len() && items[j].order_id == order_id && has_article_id(
            articles,
            items[j].article_id,
        )
}

/// How many order rows a customer has.
pub open spec fn order_count(orders: Seq<OrderRow>, customer_id: i32) -> int
    decreases orders.len(),
{
    if orders.len() == 0 {
        0
    } else {
        order_count(orders.drop_last(), customer_id) + if orders.last().customer_id
            == customer_id {
            1int
        } else {
            0
        }
    }
}

/// Some order row belongs to this customer.
pub open spec fn has_order_for_customer(orders: Seq<OrderRow>, customer_id: i32) -> bool {
    exists|j: int| 0 <= j < orders.len() && orders[j].customer_id == customer_id
}

/// A customer's revenue: the total price of each of the customer's order
/// rows, summed.  A customer without orders has revenue zero.
pub open spec fn customer_revenue(
    orders: Seq<OrderRow>,
    items: Seq<ItemRow>,
    articles: Seq<Article>,
    customer_id: i32,
) -> int
    decreases orders.len(),
{
    if orders.len() == 0 {
        0
    } else {
        customer_revenue(orders.drop_last(), items, articles, customer_id) + if orders.last().customer_id
            == customer_id {
            order_total(items, articles, orders.last().order_id)
        } else {
            0
        }
    }
}

pub proof fn lemma_qty_sum_bound(items: Seq<ItemRow>, article_id: i32)
    ensures
        -(items.len() as int) * 0x8000_0000 <= qty_sum(items, article_id) <= (
        items.len() as int) * 0x8000_0000,
    decreases items.len(),
{
    if items.len() > 0 {
        lemma_qty_sum_bound(items.drop_last(), article_id);
    }
}

pub proof fn lemma_price_sum_bound(articles: Seq<Article>, article_id: i32)
    ensures
        0 <= price_sum(articles, article_id) <= (articles.len() as int) * 0x1_0000_0000,
    decreases articles.len(),
{
    if articles.len() > 0 {
        lemma_price_sum_bound(articles.drop_last(), article_id);
    }
}

pub proof fn lemma_order_total_bound(items: Seq<ItemRow>, articles: Seq<Article>, order_id: i32)
    requires
        articles.len() <= 0x20_0000,
    ensures
        -(items.len() as int) * 0x10_0000_0000_0000_0000_0000 <= order_total(
            items,
            articles,
            order_id,
        ) <= (items.len() as int) * 0x10_0000_0000_0000_0000_0000,
    decreases items.len(),
{
    if items.len() > 0 {
        lemma_order_total_bound(items.drop_last(), articles, order_id);
        let last = items.last();
        if last.order_id == order_id {
            lemma_price_sum_bound(articles, last.article_id);
            assert(-0x10_0000_0000_0000_0000_0000 <= last.quantity as int * price_sum(
                articles,
                last.article_id,
            ) <= 0x10_0000_0000_0000_0000_0000) by (nonlinear_arith)
                requires
                    -0x8000_0000 <= last.quantity as int,
                    (last.quantity as int) < 0x8000_0000,
                    0 <= price_sum(articles, last.article_id),
                    price_sum(articles, last.article_id) <= 0x20_0000 * 0x1_0000_0000;
        }
    }
}

pub proof fn lemma_customer_revenue_bound(
    orders: Seq<OrderRow>,
    items: Seq<ItemRow>,
    articles: Seq<Article>,
    customer_id: i32,
)
    requires
        items.len() <= 0x20_0000,
        articles.len() <= 0x20_0000,
    ensures
        -(orders.len() as int) * 0x2_0000_0000_0000_0000_0000_0000_0000 <= customer_revenue(
            orders,
            items,
            articles,
            customer_id,
        ) <= (orders.len() as int) * 0x2_0000_0000_0000_0000_0000_0000_0000,
    decreases orders.len(),
{
    if orders.len() > 0 {
        lemma_customer_revenue_bound(orders.drop_last(), items, articles, customer_id);
        let last = orders.last();
        if last.customer_id == customer_id {
            lemma_order_total_bound(items, articles, last.order_id);
        }
    }
}

/// The total quantity of one article over the join rows, with whether any
/// join row mentions it at all.
fn sum_qty_for(items: &Vec<ItemRow>, article_id: i32) -> (r: (i128, bool))
    requires
        items@.len() <= 0x20_0000,
    ensures
        r.0 == qty_sum(items@, article_id),
        r.1 == has_item_for_article(items@, article_id),
{
    let mut acc: i128 = 0;
    let mut found: bool = false;
    let n = items.len();
    let mut i: usize = 0;
    while i < n
        invariant
            n == items@.len(),
            n <= 0x20_0000,
            i <= n,
            acc == qty_sum(items@.take(i as int), article_id),
            -(i as int) * 0x8000_0000 <= acc <= (i as int) * 0x8000_0000,
            found == has_item_for_article(items@.take(i as int), article_id),
        decreases n - i,
    {
        proof {
            assert(items@.take(i as int + 1).drop_last() =~= items@.take(i as int));
            assert(items@.take(i as int + 1).last() == items@[i as int]);
        }
        if items[i].article_id == article_id {
            acc = acc + items[i].quantity as i128;
            found = true;
        }
        proof {
            if !found {
                assert forall|j: int|
                    0 <= j < items@.take(i as int + 1).len() implies #[trigger] items@.take(
                    i as int + 1,
                )[j].article_id != article_id by {
                    if j < i as int {
                        assert(items@.take(i as int)[j] == items@[j]);
                    }
                }
            }
        }
        i = i + 1;
    }
    proof {
        assert(items@.take(n as int) =~= items@);
    }
    (acc, found)
}

/// The summed price of one article id over the article rows, with whether
/// any article row carries it.
fn sum_price_for(articles: &Vec<Article>, article_id: i32) -> (r: (i128, bool))
    requires
        articles@.len() <= 0x20_0000,
    ensures
        r.0 == price_sum(articles@, article_id),
        r.1 == has_article_id(articles@, article_id),
{
    let mut acc: i128 = 0;
    let mut found: bool = false;
    let n = articles.len();
    let mut i: usize = 0;
    while i < n
        invariant
            n == articles@.len(),
            n <= 0x20_0000,
            i <= n,
            acc == price_sum(articles@.take(i as int), article_id),
            0 <= acc <= (i as int) * 0x1_0000_0000,
            found == has_article_id(articles@.take(i as int), article_id),
        decreases n - i,
    {
        proof {
            assert(articles@.take(i as int + 1).drop_last() =~= articles@.take(i as int));
            assert(articles@.take(i as int + 1).last() == articles@[i as int]);
        }
        if articles[i].article_id == article_id {
            acc = acc + articles[i].price as i128;
            found = true;
        }
        proof {
            if !found {
                assert forall|j: int|
                    0 <= j < articles@.take(i as int + 1).len() implies #[trigger] articles@.take(
                    i as int + 1,
                )[j].article_id != article_id by {
                    if j < i as int {
                        assert(articles@.take(i as int)[j] == articles@[j]);
                    }
                }
            }
        }
        i = i + 1;
    }
    proof {
        assert(articles@.take(n as int) =~= articles@);
    }
    (acc, found)
}

/// The total price of one order over the join rows, with whether an inner
/// join against the article table yields any row for it.
fn order_total_for(
    items: &Vec<ItemRow>,
    articles: &Vec<Article>,
    order_id: i32,
) -> (r: (i128, bool))
    requires
        items@.len() <= 0x20_0000,
        articles@.len() <= 0x20_0000,
    ensures
        r.0 == order_total(items@, articles@, order_id),
        r.1 == order_contributes(items@, articles@, order_id),
{
    let mut acc: i128 = 0;
    let mut found: bool = false;
    let n = items.len();
    let mut i: usize = 0;
    while i < n
        invariant
            n == items@.len(),
            n <= 0x20_0000,
            articles@.len() <= 0x20_0000,
            i <= n,
            acc == order_total(items@.take(i as int), articles@, order_id),
            -(i as int) * 0x10_0000_0000_0000_0000_0000 <= acc <= (i as int)
                * 0x10_0000_0000_0000_0000_0000,
            found == order_contributes(items@.take(i as int), articles@, order_id),
        decreases n - i,
    {
        proof {
            assert(items@.take(i as int + 1).drop_last() =~= items@.take(i as int));
            assert(items@.take(i as int + 1).last() == items@[i as int]);
        }
        if items[i].order_id == order_id {
            let (ps, has_article) = sum_price_for(articles, items[i].article_id);
            proof {
                lemma_price_sum_bound(articles@, items@[i as int].article_id);
                assert(-0x10_0000_0000_0000_0000_0000 <= items@[i as int].quantity as int * ps
                    <= 0x10_0000_0000_0000_0000_0000) by (nonlinear_arith)
                    requires
                        -0x8000_0000 <= items@[i as int].quantity as int,
                        (items@[i as int].quantity as int) < 0x8000_0000,
                        0 <= ps,
                        ps <= 0x20_0000 * 0x1_0000_0000;
            }
            acc = acc + items[i].quantity as i128 * ps;
            if has_article {
                found = true;
            }
        }
        proof {
            if !found {
                assert forall|j: int|
                    0 <= j < items@.take(i as int + 1).len() implies !((#[trigger] items@.take(
                    i as int + 1,
                )[j]).order_id == order_id && has_article_id(
                    articles@,
                    items@.take(i as int + 1)[j].article_id,
                )) by {
                    if j < i as int {
                        assert(items@.take(i as int)[j] == items@[j]);
                    }
                }
            }
        }
        i = i + 1;
    }
    proof {
        assert(items@.take(n as int) =~= items@);
    }
    (acc, found)
}

/// How many order rows a customer has, over the fetched rows.
fn count_orders_for(orders: &Vec<OrderRow>, customer_id: i32) -> (r: u64)
    requires
        orders@.len() <= 0x20_0000,
    ensures
        r as int == order_count(orders@, customer_id),
{
    let mut acc: u64 = 0;
    let n = orders.len();
    let mut i: usize = 0;
    while i < n
        invariant
            n == orders@.len(),
            n <= 0x20_0000,
            i <= n,
            acc as int == order_count(orders@.take(i as int), customer_id),
            acc <= i as u64,
        decreases n - i,
    {
        proof {
            assert(orders@.take(i as int + 1).drop_last() =~= orders@.take(i as int));
            assert(orders@.take(i as int + 1).last() == orders@[i as int]);
        }
        if orders[i].customer_id == customer_id {
            acc = acc + 1;
        }
        i = i + 1;
    }
    proof {
        assert(orders@.take(n as int) =~= orders@);
    }
    acc
}

/// A customer's revenue over the fetched rows.
fn revenue_for_customer(
    orders: &Vec<OrderRow>,
    items: &Vec<ItemRow>,
    articles: &Vec<Article>,
    customer_id: i32,
) -> (r: i128)
    requires
        orders@.len() <= 0x20_0000,
        items@.len() <= 0x20_0000,
        articles@.len() <= 0x20_0000,
    ensures
        r == customer_revenue(orders@, items@, articles@, customer_id),
{
    let mut acc: i128 = 0;
    let n = orders.len();
    let mut i: usize = 0;
    while i < n
        invariant
            n == orders@.len(),
            n <= 0x20_0000,
            items@.len() <= 0x20_0000,
            articles@.len() <= 0x20_0000,
            i <= n,
            acc == customer_revenue(orders@.take(i as int), items@, articles@, customer_id),
            -(i as int) * 0x200_0000_0000_0000_0000_0000_0000 <= acc <= (i as int)
                * 0x200_0000_0000_0000_0000_0000_0000,
        decreases n - i,
    {
        proof {
            assert(orders@.take(i as int + 1).drop_last() =~= orders@.take(i as int));
            assert(orders@.take(i as int + 1).last() == orders@[i as int]);
        }
        if orders[i].customer_id == customer_id {
            let order_id = orders[i].order_id;
            let (total, _) = order_total_for(items, articles, order_id);
            proof {
                lemma_order_total_bound(items@, articles@, order_id);
            }
            acc = acc + total;
        }
        i = i + 1;
    }
    proof {
        assert(orders@.take(n as int) =~= orders@);
    }
    acc
}

/// What the per-article quantity map promises: a key for every article that
/// appears in a join row, carrying the total quantity ordered.
pub open spec fn ordered_quantities_ok(db: Db, m: Map<i32, i128>) -> bool {
    &&& forall|aid: i32| #[trigger]
        m.contains_key(aid) <==> has_item_for_article(items_of(db), aid)
    &&& forall|aid: i32| #[trigger]
        m.contains_key(aid) ==> m[aid] == qty_sum(items_of(db), aid)
}

/// What the per-article revenue map promises: a key for every article that
/// both exists and appears in a join row, carrying quantity times price
/// summed over the join.
pub open spec fn article_revenue_ok(db: Db, m: Map<i32, i128>) -> bool {
    &&& forall|aid: i32| #[trigger]
        m.contains_key(aid) <==> has_article_id(articles_of(db), aid) && has_item_for_article(
            items_of(db),
            aid,
        )
    &&& forall|aid: i32| #[trigger]
        m.contains_key(aid) ==> m[aid] == qty_sum(items_of(db), aid) * price_sum(
            articles_of(db),
            aid,
        )
}

/// What the per-order total map promises: a key for every order that joins
/// at least one existing article, carrying the order's total price.
pub open spec fn total_prices_ok(db: Db, m: Map<i32, i128>) -> bool {
    &&& forall|oid: i32| #[trigger]
        m.contains_key(oid) <==> crate::db::has_order_id(orders_of(db), oid)
            && order_contributes(items_of(db), articles_of(db), oid)
    &&& forall|oid: i32| #[trigger]
        m.contains_key(oid) ==> m[oid] == order_total(items_of(db), articles_of(db), oid)
}

/// What the per-customer order count promises: a key for every customer with
/// at least one order row, carrying the row count.
pub open spec fn orders_per_customer_ok(db: Db, m: Map<i32, u64>) -> bool {
    &&& forall|cid: i32| #[trigger]
        m.contains_key(cid) <==> has_order_for_customer(orders_of(db), cid)
    &&& forall|cid: i32| #[trigger]
        m.contains_key(cid) ==> m[cid] as int == order_count(orders_of(db), cid)
}

/// What the per-customer revenue map promises: a key for every customer row
/// and for every order's customer, carrying the customer's revenue — zero
/// for a customer with no orders, not a missing key.
pub open spec fn customer_revenue_ok(db: Db, m: Map<i32, i128>) -> bool {
    &&& forall|cid: i32| #[trigger]
        m.contains_key(cid) <==> has_customer_id(customers_of(db), cid)
            || has_order_for_customer(orders_of(db), cid)
    &&& forall|cid: i32| #[trigger]
        m.contains_key(cid) ==> m[cid] == customer_revenue(
            orders_of(db),
            items_of(db),
            articles_of(db),
            cid,
        )
}

/// `q` is the largest quantity among the order's join rows, and some join
/// row of the order carries it.
pub open spec fn is_max_qty(items: Seq<ItemRow>, order_id: i32, q: int) -> bool {
    &&& exists|j: int|
        0 <= j < items.len() && (#[trigger] items[j]).order_id == order_id && items[j].quantity
            == q
    &&& forall|j: int|
        0 <= j < items.len() && (#[trigger] items[j]).order_id == order_id
            ==> items[j].quantity <= q
}

/// The join row at `ii` and article row at `ai` qualify the order at `oi`:
/// the join row belongs to that order, carries its highest quantity, and its
/// article exists.
pub open spec fn qualifier_at(
    orders: Seq<OrderRow>,
    items: Seq<ItemRow>,
    articles: Seq<Article>,
    oi: int,
    ii: int,
    ai: int,
) -> bool {
    &&& 0 <= oi < orders.len()
    &&& 0 <= ii < items.len()
    &&& 0 <= ai < articles.len()
    &&& items[ii].order_id == orders[oi].order_id
    &&& is_max_qty(items, orders[oi].order_id, items[ii].quantity as int)
    &&& articles[ai].article_id == items[ii].article_id
}

/// Some join row and article qualify the order at `oi`.
pub open spec fn exists_qualifier(
    orders: Seq<OrderRow>,
    items: Seq<ItemRow>,
    articles: Seq<Article>,
    oi: int,
) -> bool {
    exists|ii: int, ai: int|
        #![trigger items[ii], articles[ai]]
        qualifier_at(orders, items, articles, oi, ii, ai)
}

/// The name belongs to an article that some join row of one of the
/// customer's orders carries with that order's highest quantity.  When
/// several rows tie, any of their articles may be named: the tie-break is
/// left open, as it is left to row order in the store.
pub open spec fn most_bought_entry(
    orders: Seq<OrderRow>,
    items: Seq<ItemRow>,
    articles: Seq<Article>,
    cid: i32,
    name: String,
) -> bool {
    exists|oi: int, ii: int, ai: int|
        #![trigger orders[oi], items[ii], articles[ai]]
        {
            &&& orders[oi].customer_id == cid
            &&& qualifier_at(orders, items, articles, oi, ii, ai)
            &&& articles[ai].name == name
        }
}

/// Some article qualifies as the customer's most-bought item.
pub open spec fn has_most_bought(
    orders: Seq<OrderRow>,
    items: Seq<ItemRow>,
    articles: Seq<Article>,
    cid: i32,
) -> bool {
    exists|oi: int, ii: int, ai: int|
        #![trigger orders[oi], items[ii], articles[ai]]
        orders[oi].customer_id == cid && qualifier_at(orders, items, articles, oi, ii, ai)
}

pub proof fn lemma_most_bought_step(
    orders: Seq<OrderRow>,
    items: Seq<ItemRow>,
    articles: Seq<Article>,
    oi: int,
    cid: i32,
)
    requires
        0 <= oi < orders.len(),
    ensures
        has_most_bought(orders.take(oi + 1), items, articles, cid) <==> (has_most_bought(
            orders.take(oi),
            items,
            articles,
            cid,
        ) || (orders[oi].customer_id == cid && exists_qualifier(orders, items, articles, oi))),
{
    let pre = orders.take(oi);
    let post = orders.take(oi + 1);
    if has_most_bought(post, items, articles, cid) {
        let (o, ii, ai) = choose|o: int, ii: int, ai: int|
            #![trigger post[o], items[ii], articles[ai]]
            post[o].customer_id == cid && qualifier_at(post, items, articles, o, ii, ai);
        assert(post[o] == orders[o]);
        assert(qualifier_at(orders, items, articles, o, ii, ai));
        if o < oi {
            assert(pre[o] == orders[o]);
            assert(qualifier_at(pre, items, articles, o, ii, ai));
            assert(has_most_bought(pre, items, articles, cid));
        } else {
            assert(o == oi);
            assert(exists_qualifier(orders, items, articles, oi));
        }
    }
    if has_most_bought(pre, items, articles, cid) {
        let (o, ii, ai) = choose|o: int, ii: int, ai: int|
            #![trigger pre[o], items[ii], articles[ai]]
            pre[o].customer_id == cid && qualifier_at(pre, items, articles, o, ii, ai);
        assert(pre[o] == orders[o]);
        assert(post[o] == orders[o]);
        assert(qualifier_at(post, items, articles, o, ii, ai));
        assert(has_most_bought(post, items, articles, cid));
    }
    if orders[oi].customer_id == cid && exists_qualifier(orders, items, articles, oi) {
        let (ii, ai) = choose|ii: int, ai: int|
            #![trigger items[ii], articles[ai]]
            qualifier_at(orders, items, articles, oi, ii, ai);
        assert(post[oi] == orders[oi]);
        assert(qualifier_at(post, items, articles, oi, ii, ai));
        assert(has_most_bought(post, items, articles, cid));
    }
}

/// What the most-bought map promises: a key for exactly the customers with a
/// qualifying article, carrying one qualifying article's name.
pub open spec fn most_bought_ok(db: Db, m: Map<i32, String>) -> bool {
    &&& forall|cid: i32| #[trigger]
        m.contains_key(cid) <==> has_most_bought(
            orders_of(db),
            items_of(db),
            articles_of(db),
            cid,
        )
    &&& forall|cid: i32| #[trigger]
        m.contains_key(cid) ==> most_bought_entry(
            orders_of(db),
            items_of(db),
            articles_of(db),
            cid,
            m[cid],
        )
}

/// Total quantity ordered per article.
pub fn get_ordered_quantities(db: &Db) -> (r: Result<HashMap<i32, i128>, Error>)
    requires
        items_of(*db).len() <= 0x20_0000,
    ensures
        match r {
            Ok(m) => ordered_quantities_ok(*db, m@),
            Err(e) => e == Error::SqlExecution,
        },
{
    let items = match exec_select_all_items(db) {
        Ok(v) => v,
        Err(e) => {
            return Err(e);
        },
    };
    let mut m: HashMap<i32, i128> = HashMap::new();
    let n = items.len();
    let mut i: usize = 0;
    while i < n
        invariant
            items@ == items_of(*db),
            n == items@.len(),
            n <= 0x20_0000,
            i <= n,
            forall|aid: i32| #[trigger]
                m@.contains_key(aid) <==> has_item_for_article(items@.take(i as int), aid),
            forall|aid: i32| #[trigger]
                m@.contains_key(aid) ==> m@[aid] == qty_sum(items@, aid),
        decreases n - i,
    {
        let aid = items[i].article_id;
        let (q, _) = sum_qty_for(&items, aid);
        m.insert(aid, q);
        proof {
            assert forall|a: i32| #[trigger]
                m@.contains_key(a) <==> has_item_for_article(
                items@.take(i as int + 1),
                a,
            ) by {
                if a == aid {
                    assert(items@.take(i as int + 1)[i as int] == items@[i as int]);
                } else {
                    assert(has_item_for_article(items@.take(i as int + 1), a)
                        == has_item_for_article(items@.take(i as int), a)) by {
                        if has_item_for_article(items@.take(i as int + 1), a) {
                            let j = choose|j: int|
                                #![trigger items@.take(i as int + 1)[j]]
                                0 <= j < items@.take(i as int + 1).len() && items@.take(
                                    i as int + 1,
                                )[j].article_id == a;
                            assert(items@.take(i as int)[j] == items@.take(i as int + 1)[j]);
                        }
                        if has_item_for_article(items@.take(i as int), a) {
                            let j = choose|j: int|
                                #![trigger items@.take(i as int)[j]]
                                0 <= j < items@.take(i as int).len() && items@.take(
                                    i as int,
                                )[j].article_id == a;
                            assert(items@.take(i as int + 1)[j] == items@.take(i as int)[j]);
                        }
                    }
                }
            }
        }
        i = i + 1;
    }
    proof {
        assert(items@.take(n as int) =~= items@);
    }
    Ok(m)
}

/// Total quantity ordered per article, under its free-standing alias.
pub fn article_order_count(db: &Db) -> (r: Result<HashMap<i32, i128>, Error>)
    requires
        items_of(*db).len() <= 0x20_0000,
    ensures
        match r {
            Ok(m) => ordered_quantities_ok(*db, m@),
            Err(e) => e == Error::SqlExecution,
        },
{
    get_ordered_quantities(db)
}

/// Revenue per article: price times quantity, summed over the joined rows.
pub fn get_article_revenue(db: &Db) -> (r: Result<HashMap<i32, i128>, Error>)
    requires
        items_of(*db).len() <= 0x20_0000,
        articles_of(*db).len() <= 0x20_0000,
    ensures
        match r {
            Ok(m) => article_revenue_ok(*db, m@),
            Err(e) => e == Error::SqlExecution,
        },
{
    let sql = build_select_all_sql("article", &article_columns_vec());
    let articles = match exec_select_articles(db, sql.as_str()) {
        Ok(v) => v,
        Err(e) => {
            return Err(e);
        },
    };
    let items = match exec_select_all_items(db) {
        Ok(v) => v,
        Err(e) => {
            return Err(e);
        },
    };
    let mut m: HashMap<i32, i128> = HashMap::new();
    let n = articles.len();
    let mut i: usize = 0;
    while i < n
        invariant
            articles@ == articles_of(*db),
            items@ == items_of(*db),
            n == articles@.len(),
            n <= 0x20_0000,
            items@.len() <= 0x20_0000,
            i <= n,
            forall|aid: i32| #[trigger]
                m@.contains_key(aid) <==> has_article_id(articles@.take(i as int), aid)
                    && has_item_for_article(items@, aid),
            forall|aid: i32| #[trigger]
                m@.contains_key(aid) ==> m@[aid] == qty_sum(items@, aid) * price_sum(
                    articles@,
                    aid,
                ),
        decreases n - i,
    {
        let aid = articles[i].article_id;
        let (q, has_item) = sum_qty_for(&items, aid);
        if has_item {
            let (p, _) = sum_price_for(&articles, aid);
            proof {
                lemma_qty_sum_bound(items@, aid);
                lemma_price_sum_bound(articles@, aid);
                assert(-0x400_0000_0000_0000_0000_0000_0000 <= q * p
                    <= 0x400_0000_0000_0000_0000_0000_0000) by (nonlinear_arith)
                    requires
                        -0x20_0000 * 0x8000_0000 <= q,
                        q <= 0x20_0000 * 0x8000_0000,
                        0 <= p,
                        p <= 0x20_0000 * 0x1_0000_0000;
            }
            m.insert(aid, q * p);
        }
        proof {
            assert forall|a: i32| #[trigger]
                m@.contains_key(a) <==> has_article_id(articles@.take(i as int + 1), a)
                    && has_item_for_article(items@, a) by {
                assert(has_article_id(articles@.take(i as int + 1), a) == (a == aid
                    || has_article_id(articles@.take(i as int), a))) by {
                    if has_article_id(articles@.take(i as int + 1), a) {
                        let j = choose|j: int|
                            #![trigger articles@.take(i as int + 1)[j]]
                            0 <= j < articles@.take(i as int + 1).len() && articles@.take(
                                i as int + 1,
                            )[j].article_id == a;
                        if j < i as int {
                            assert(articles@.take(i as int)[j] == articles@.take(
                                i as int + 1,
                            )[j]);
                        }
                    }
                    if has_article_id(articles@.take(i as int), a) {
                        let j = choose|j: int|
                            #![trigger articles@.take(i as int)[j]]
                            0 <= j < articles@.take(i as int).len() && articles@.take(
                                i as int,
                            )[j].article_id == a;
                        assert(articles@.take(i as int + 1)[j] == articles@.take(i as int)[j]);
                    }
                    assert(articles@.take(i as int + 1)[i as int] == articles@[i as int]);
                }
            }
        }
        i = i + 1;
    }
    proof {
        assert(articles@.take(n as int) =~= articles@);
    }
    Ok(m)
}

/// Total price per order over the joined rows.
pub fn get_total_prices(db: &Db) -> (r: Result<HashMap<i32, i128>, Error>)
    requires
        items_of(*db).len() <= 0x20_0000,
        articles_of(*db).len() <= 0x20_0000,
    ensures
        match r {
            Ok(m) => total_prices_ok(*db, m@),
            Err(e) => e == Error::SqlExecution,
        },
{
    let sql = build_select_all_sql("orders", &order_columns_vec());
    let orders = match exec_select_order_rows(db, sql.as_str()) {
        Ok(v) => v,
        Err(e) => {
            return Err(e);
        },
    };
    let sql_articles = build_select_all_sql("article", &article_columns_vec());
    let articles = match exec_select_articles(db, sql_articles.as_str()) {
        Ok(v) => v,
        Err(e) => {
            return Err(e);
        },
    };
    let items = match exec_select_all_items(db) {
        Ok(v) => v,
        Err(e) => {
            return Err(e);
        },
    };
    let mut m: HashMap<i32, i128> = HashMap::new();
    let n = orders.len();
    let mut i: usize = 0;
    while i < n
        invariant
            orders@ == orders_of(*db),
            articles@ == articles_of(*db),
            items@ == items_of(*db),
            n == orders@.len(),
            i <= n,
            items@.len() <= 0x20_0000,
            articles@.len() <= 0x20_0000,
            forall|oid: i32| #[trigger]
                m@.contains_key(oid) <==> crate::db::has_order_id(orders@.take(i as int), oid)
                    && order_contributes(items@, articles@, oid),
            forall|oid: i32| #[trigger]
                m@.contains_key(oid) ==> m@[oid] == order_total(items@, articles@, oid),
        decreases n - i,
    {
        let oid = orders[i].order_id;
        let (total, contributes) = order_total_for(&items, &articles, oid);
        if contributes {
            m.insert(oid, total);
        }
        proof {
            assert forall|o: i32| #[trigger]
                m@.contains_key(o) <==> crate::db::has_order_id(orders@.take(i as int + 1), o)
                    && order_contributes(items@, articles@, o) by {
                assert(crate::db::has_order_id(orders@.take(i as int + 1), o) == (o == oid
                    || crate::db::has_order_id(orders@.take(i as int), o))) by {
                    if crate::db::has_order_id(orders@.take(i as int + 1), o) {
                        let j = choose|j: int|
                            #![trigger orders@.take(i as int + 1)[j]]
                            0 <= j < orders@.take(i as int + 1).len() && orders@.take(
                                i as int + 1,
                            )[j].order_id == o;
                        if j < i as int {
                            assert(orders@.take(i as int)[j] == orders@.take(i as int + 1)[j]);
                        }
                    }
                    if crate::db::has_order_id(orders@.take(i as int), o) {
                        let j = choose|j: int|
                            #![trigger orders@.take(i as int)[j]]
                            0 <= j < orders@.take(i as int).len() && orders@.take(
                                i as int,
                            )[j].order_id == o;
                        assert(orders@.take(i as int + 1)[j] == orders@.take(i as int)[j]);
                    }
                    assert(orders@.take(i as int + 1)[i as int] == orders@[i as int]);
                }
            }
        }
        i = i + 1;
    }
    proof {
        assert(orders@.take(n as int) =~= orders@);
    }
    Ok(m)
}

/// Order count per customer.
pub fn get_total_orders_customer(db: &Db) -> (r: Result<HashMap<i32, u64>, Error>)
    requires
        orders_of(*db).len() <= 0x20_0000,
    ensures
        match r {
            Ok(m) => orders_per_customer_ok(*db, m@),
            Err(e) => e == Error::SqlExecution,
        },
{
    let sql = build_select_all_sql("orders", &order_columns_vec());
    let orders = match exec_select_order_rows(db, sql.as_str()) {
        Ok(v) => v,
        Err(e) => {
            return Err(e);
        },
    };
    let mut m: HashMap<i32, u64> = HashMap::new();
    let n = orders.len();
    let mut i: usize = 0;
    while i < n
        invariant
            orders@ == orders_of(*db),
            n == orders@.len(),
            n <= 0x20_0000,
            i <= n,
            forall|cid: i32| #[trigger]
                m@.contains_key(cid) <==> has_order_for_customer(orders@.take(i as int), cid),
            forall|cid: i32| #[trigger]
                m@.contains_key(cid) ==> m@[cid] as int == order_count(orders@, cid),
        decreases n - i,
    {
        let cid = orders[i].customer_id;
        let count = count_orders_for(&orders, cid);
        m.insert(cid, count);
        proof {
            assert forall|c: i32| #[trigger]
                m@.contains_key(c) <==> has_order_for_customer(
                orders@.take(i as int + 1),
                c,
            ) by {
                if c == cid {
                    assert(orders@.take(i as int + 1)[i as int] == orders@[i as int]);
                } else {
                    assert(has_order_for_customer(orders@.take(i as int + 1), c)
                        == has_order_for_customer(orders@.take(i as int), c)) by {
                        if has_order_for_customer(orders@.take(i as int + 1), c) {
                            let j = choose|j: int|
                                #![trigger orders@.take(i as int + 1)[j]]
                                0 <= j < orders@.take(i as int + 1).len() && orders@.take(
                                    i as int + 1,
                                )[j].customer_id == c;
                            assert(orders@.take(i as int)[j] == orders@.take(i as int + 1)[j]);
                        }
                        if has_order_for_customer(orders@.take(i as int), c) {
                            let j = choose|j: int|
                                #![trigger orders@.take(i as int)[j]]
                                0 <= j < orders@.take(i as int).len() && orders@.take(
                                    i as int,
                                )[j].customer_id == c;
                            assert(orders@.take(i as int + 1)[j] == orders@.take(i as int)[j]);
                        }
                    }
                }
            }
        }
        i = i + 1;
    }
    proof {
        assert(orders@.take(n as int) =~= orders@);
    }
    Ok(m)
}

/// Revenue per customer.  Every customer row yields a key, so a customer
/// with no orders reports zero rather than going missing; customers known
/// only through order rows are included as well.
pub fn get_total_revenue_customer(db: &Db) -> (r: Result<HashMap<i32, i128>, Error>)
    requires
        orders_of(*db).len() <= 0x20_0000,
        items_of(*db).len() <= 0x20_0000,
        articles_of(*db).len() <= 0x20_0000,
    ensures
        match r {
            Ok(m) => customer_revenue_ok(*db, m@),
            Err(e) => e == Error::SqlExecution,
        },
{
    let sql_customers = build_select_all_sql("customer", &customer_columns_vec());
    let customers = match exec_select_customers(db, sql_customers.as_str()) {
        Ok(v) => v,
        Err(e) => {
            return Err(e);
        },
    };
    let sql_orders = build_select_all_sql("orders", &order_columns_vec());
    let orders = match exec_select_order_rows(db, sql_orders.as_str()) {
        Ok(v) => v,
        Err(e) => {
            return Err(e);
        },
    };
    let sql_articles = build_select_all_sql("article", &article_columns_vec());
    let articles = match exec_select_articles(db, sql_articles.as_str()) {
        Ok(v) => v,
        Err(e) => {
            return Err(e);
        },
    };
    let items = match exec_select_all_items(db) {
        Ok(v) => v,
        Err(e) => {
            return Err(e);
        },
    };
    let mut m: HashMap<i32, i128> = HashMap::new();
    let n = customers.len();
    let mut i: usize = 0;
    while i < n
        invariant
            customers@ == customers_of(*db),
            orders@ == orders_of(*db),
            articles@ == articles_of(*db),
            items@ == items_of(*db),
            n == customers@.len(),
            i <= n,
            orders@.len() <= 0x20_0000,
            items@.len() <= 0x20_0000,
            articles@.len() <= 0x20_0000,
            forall|cid: i32| #[trigger]
                m@.contains_key(cid) <==> has_customer_id(customers@.take(i as int), cid),
            forall|cid: i32| #[trigger]
                m@.contains_key(cid) ==> m@[cid] == customer_revenue(
                    orders@,
                    items@,
                    articles@,
                    cid,
                ),
        decreases n - i,
    {
        let cid = customers[i].customer_id;
        let rev = revenue_for_customer(&orders, &items, &articles, cid);
        m.insert(cid, rev);
        proof {
            assert forall|c: i32| #[trigger]
                m@.contains_key(c) <==> has_customer_id(customers@.take(i as int + 1), c) by {
                if c == cid {
                    assert(customers@.take(i as int + 1)[i as int] == customers@[i as int]);
                } else {
                    assert(has_customer_id(customers@.take(i as int + 1), c) == has_customer_id(
                        customers@.take(i as int),
                        c,
                    )) by {
                        if has_customer_id(customers@.take(i as int + 1), c) {
                            let j = choose|j: int|
                                #![trigger customers@.take(i as int + 1)[j]]
                                0 <= j < customers@.take(i as int + 1).len() && customers@.take(
                                    i as int + 1,
                                )[j].customer_id == c;
                            assert(customers@.take(i as int)[j] == customers@.take(
                                i as int + 1,
                            )[j]);
                        }
                        if has_customer_id(customers@.take(i as int), c) {
                            let j = choose|j: int|
                                #![trigger customers@.take(i as int)[j]]
                                0 <= j < customers@.take(i as int).len() && customers@.take(
                                    i as int,
                                )[j].customer_id == c;
                            assert(customers@.take(i as int + 1)[j] == customers@.take(
                                i as int,
                            )[j]);
                        }
                    }
                }
            }
        }
        i = i + 1;
    }
    proof {
        assert(customers@.take(n as int) =~= customers@);
    }
    let n2 = orders.len();
    let mut k: usize = 0;
    while k < n2
        invariant
            customers@ == customers_of(*db),
            orders@ == orders_of(*db),
            articles@ == articles_of(*db),
            items@ == items_of(*db),
            n2 == orders@.len(),
            k <= n2,
            orders@.len() <= 0x20_0000,
            items@.len() <= 0x20_0000,
            articles@.len() <= 0x20_0000,
            forall|cid: i32| #[trigger]
                m@.contains_key(cid) <==> has_customer_id(customers@, cid)
                    || has_order_for_customer(orders@.take(k as int), cid),
            forall|cid: i32| #[trigger]
                m@.contains_key(cid) ==> m@[cid] == customer_revenue(
                    orders@,
                    items@,
                    articles@,
                    cid,
                ),
        decreases n2 - k,
    {
        let cid = orders[k].customer_id;
        let rev = revenue_for_customer(&orders, &items, &articles, cid);
        m.insert(cid, rev);
        proof {
            assert forall|c: i32| #[trigger]
                m@.contains_key(c) <==> has_customer_id(customers@, c) || has_order_for_customer(
                    orders@.take(k as int + 1),
                    c,
                ) by {
                if c == cid {
                    assert(orders@.take(k as int + 1)[k as int] == orders@[k as int]);
                } else {
                    assert(has_order_for_customer(orders@.take(k as int + 1), c)
                        == has_order_for_customer(orders@.take(k as int), c)) by {
                        if has_order_for_customer(orders@.take(k as int + 1), c) {
                            let j = choose|j: int|
                                #![trigger orders@.take(k as int + 1)[j]]
                                0 <= j < orders@.take(k as int + 1).len() && orders@.take(
                                    k as int + 1,
                                )[j].customer_id == c;
                            assert(orders@.take(k as int)[j] == orders@.take(k as int + 1)[j]);
                        }
                        if has_order_for_customer(orders@.take(k as int), c) {
                            let j = choose|j: int|
                                #![trigger orders@.take(k as int)[j]]
                                0 <= j < orders@.take(k as int).len() && orders@.take(
                                    k as int,
                                )[j].customer_id == c;
                            assert(orders@.take(k as int + 1)[j] == orders@.take(k as int)[j]);
                        }
                    }
                }
            }
        }
        k = k + 1;
    }
    proof {
        assert(orders@.take(n2 as int) =~= orders@);
    }
    Ok(m)
}


/// The highest quantity among the order's join rows, if it has any.
fn max_qty_for(items: &Vec<ItemRow>, order_id: i32) -> (r: Option<i32>)
    ensures
        match r {
            Some(q) => is_max_qty(items@, order_id, q as int),
            None => !has_item_for_order(items@, order_id),
        },
{
    let mut best: Option<i32> = None;
    let n = items.len();
    let mut i: usize = 0;
    while i < n
        invariant
            n == items@.len(),
            i <= n,
            match best {
                Some(q) => is_max_qty(items@.take(i as int), order_id, q as int),
                None => !has_item_for_order(items@.take(i as int), order_id),
            },
        decreases n - i,
    {
        proof {
            assert(items@.take(i as int + 1)[i as int] == items@[i as int]);
            assert forall|j: int| 0 <= j < i as int implies #[trigger] items@.take(
                i as int + 1,
            )[j] == items@.take(i as int)[j] by {}
        }
        if items[i].order_id == order_id {
            let q = items[i].quantity;
            match best {
                None => {
                    best = Some(q);
                },
                Some(b) => {
                    if q > b {
                        best = Some(q);
                    }
                },
            }
        }
        proof {
            match best {
                Some(q) => {
                    assert forall|j: int|
                        0 <= j < items@.take(i as int + 1).len() && (#[trigger] items@.take(
                            i as int + 1,
                        )[j]).order_id == order_id implies items@.take(i as int + 1)[j].quantity
                        <= q as int by {
                        if j < i as int {
                            assert(items@.take(i as int)[j] == items@.take(i as int + 1)[j]);
                        }
                    }
                },
                None => {
                    assert forall|j: int|
                        0 <= j < items@.take(i as int + 1).len() implies (#[trigger] items@.take(
                            i as int + 1,
                        )[j]).order_id != order_id by {
                        if j < i as int {
                            assert(items@.take(i as int)[j] == items@.take(i as int + 1)[j]);
                        }
                    }
                },
            }
        }
        i = i + 1;
    }
    proof {
        assert(items@.take(n as int) =~= items@);
    }
    best
}

/// The position of the first article row carrying this id, if any.
fn find_article_idx(articles: &Vec<Article>, article_id: i32) -> (r: Option<usize>)
    ensures
        match r {
            Some(idx) => idx < articles@.len() && articles@[idx as int].article_id == article_id,
            None => !has_article_id(articles@, article_id),
        },
{
    let n = articles.len();
    let mut i: usize = 0;
    while i < n
        invariant
            n == articles@.len(),
            i <= n,
            forall|j: int| 0 <= j < i as int ==> (#[trigger] articles@[j]).article_id
                != article_id,
        decreases n - i,
    {
        if articles[i].article_id == article_id {
            return Some(i);
        }
        i = i + 1;
    }
    None
}

/// The name of each customer's most-bought article: for every order row, the
/// join rows tied for the order's highest quantity name their articles, and
/// one of those names is kept per customer.
pub fn get_most_bought_item_customer(db: &Db) -> (r: Result<HashMap<i32, String>, Error>)
    ensures
        match r {
            Ok(m) => most_bought_ok(*db, m@),
            Err(e) => e == Error::SqlExecution,
        },
{
    let sql_orders = build_select_all_sql("orders", &order_columns_vec());
    let orders = match exec_select_order_rows(db, sql_orders.as_str()) {
        Ok(v) => v,
        Err(e) => {
            return Err(e);
        },
    };
    let sql_articles = build_select_all_sql("article", &article_columns_vec());
    let articles = match exec_select_articles(db, sql_articles.as_str()) {
        Ok(v) => v,
        Err(e) => {
            return Err(e);
        },
    };
    let items = match exec_select_all_items(db) {
        Ok(v) => v,
        Err(e) => {
            return Err(e);
        },
    };
    let mut m: HashMap<i32, String> = HashMap::new();
    let n = orders.len();
    let mut oi: usize = 0;
    while oi < n
        invariant
            orders@ == orders_of(*db),
            articles@ == articles_of(*db),
            items@ == items_of(*db),
            n == orders@.len(),
            oi <= n,
            forall|cid: i32| #[trigger]
                m@.contains_key(cid) <==> has_most_bought(
                    orders@.take(oi as int),
                    items@,
                    articles@,
                    cid,
                ),
            forall|cid: i32| #[trigger]
                m@.contains_key(cid) ==> most_bought_entry(
                    orders@,
                    items@,
                    articles@,
                    cid,
                    m@[cid],
                ),
        decreases n - oi,
    {
        let order_id = orders[oi].order_id;
        let ocid = orders[oi].customer_id;
        let ghost pre_dom = has_most_bought(orders@.take(oi as int), items@, articles@, ocid);
        match max_qty_for(&items, order_id) {
            None => {
                proof {
                    assert forall|cid: i32| #[trigger]
                        m@.contains_key(cid) <==> has_most_bought(
                            orders@.take(oi as int + 1),
                            items@,
                            articles@,
                            cid,
                        ) by {
                        lemma_most_bought_step(orders@, items@, articles@, oi as int, cid);
                        if exists_qualifier(orders@, items@, articles@, oi as int) {
                            let (jj, ai) = choose|jj: int, ai: int|
                                #![trigger items@[jj], articles@[ai]]
                                qualifier_at(orders@, items@, articles@, oi as int, jj, ai);
                            assert(items@[jj].order_id == order_id);
                            assert(has_item_for_order(items@, order_id));
                        }
                    }
                }
            },
            Some(maxq) => {
                let ni = items.len();
                let mut ii: usize = 0;
                while ii < ni
                    invariant
                        orders@ == orders_of(*db),
                        articles@ == articles_of(*db),
                        items@ == items_of(*db),
                        n == orders@.len(),
                        oi < n,
                        ni == items@.len(),
                        ii <= ni,
                        order_id == orders@[oi as int].order_id,
                        ocid == orders@[oi as int].customer_id,
                        is_max_qty(items@, order_id, maxq as int),
                        pre_dom == has_most_bought(
                            orders@.take(oi as int),
                            items@,
                            articles@,
                            ocid,
                        ),
                        forall|cid: i32|
                            cid != ocid ==> (#[trigger] m@.contains_key(cid)
                                <==> has_most_bought(
                                orders@.take(oi as int),
                                items@,
                                articles@,
                                cid,
                            )),
                        m@.contains_key(ocid) <==> pre_dom || (exists|jj: int, ai: int|
                            #![trigger items@[jj], articles@[ai]]
                            0 <= jj < ii as int && 0 <= ai < articles@.len()
                                && items@[jj].order_id == order_id && items@[jj].quantity
                                == maxq && articles@[ai].article_id == items@[jj].article_id),
                        forall|cid: i32| #[trigger]
                            m@.contains_key(cid) ==> most_bought_entry(
                                orders@,
                                items@,
                                articles@,
                                cid,
                                m@[cid],
                            ),
                    decreases ni - ii,
                {
                    let ghost pre_has = m@.contains_key(ocid);
                    let row_matches = items[ii].order_id == order_id && items[ii].quantity
                        == maxq;
                    if row_matches {
                        match find_article_idx(&articles, items[ii].article_id) {
                            Some(ai) => {
                                m.insert(ocid, articles[ai].name.clone());
                                proof {
                                    assert(qualifier_at(
                                        orders@,
                                        items@,
                                        articles@,
                                        oi as int,
                                        ii as int,
                                        ai as int,
                                    ));
                                    assert(most_bought_entry(
                                        orders@,
                                        items@,
                                        articles@,
                                        ocid,
                                        m@[ocid],
                                    ));
                                    assert(m@.contains_key(ocid) <==> pre_dom || (exists|
                                        jj: int,
                                        aj: int,
                                    |
                                        #![trigger items@[jj], articles@[aj]]
                                        0 <= jj < ii as int + 1 && 0 <= aj < articles@.len()
                                            && items@[jj].order_id == order_id
                                            && items@[jj].quantity == maxq
                                            && articles@[aj].article_id
                                            == items@[jj].article_id));
                                }
                            },
                            None => {
                                proof {
                                    assert(m@.contains_key(ocid) <==> pre_dom || (exists|
                                        jj: int,
                                        aj: int,
                                    |
                                        #![trigger items@[jj], articles@[aj]]
                                        0 <= jj < ii as int + 1 && 0 <= aj < articles@.len()
                                            && items@[jj].order_id == order_id
                                            && items@[jj].quantity == maxq
                                            && articles@[aj].article_id
                                            == items@[jj].article_id)) by {
                                        if !pre_has {
                                            if exists|jj: int, aj: int|
                                                #![trigger items@[jj], articles@[aj]]
                                                0 <= jj < ii as int + 1 && 0 <= aj
                                                    < articles@.len() && items@[jj].order_id
                                                    == order_id && items@[jj].quantity == maxq
                                                    && articles@[aj].article_id
                                                    == items@[jj].article_id {
                                                let (jj, aj) = choose|jj: int, aj: int|
                                                    #![trigger items@[jj], articles@[aj]]
                                                    0 <= jj < ii as int + 1 && 0 <= aj
                                                        < articles@.len()
                                                        && items@[jj].order_id == order_id
                                                        && items@[jj].quantity == maxq
                                                        && articles@[aj].article_id
                                                        == items@[jj].article_id;
                                                if jj == ii as int {
                                                    assert(has_article_id(
                                                        articles@,
                                                        items@[ii as int].article_id,
                                                    ));
                                                }
                                            }
                                        }
                                    }
                                }
                            },
                        }
                    } else {
                        proof {
                            assert(m@.contains_key(ocid) <==> pre_dom || (exists|
                                jj: int,
                                aj: int,
                            |
                                #![trigger items@[jj], articles@[aj]]
                                0 <= jj < ii as int + 1 && 0 <= aj < articles@.len()
                                    && items@[jj].order_id == order_id && items@[jj].quantity
                                    == maxq && articles@[aj].article_id
                                    == items@[jj].article_id)) by {
                                if !pre_has {
                                    if exists|jj: int, aj: int|
                                        #![trigger items@[jj], articles@[aj]]
                                        0 <= jj < ii as int + 1 && 0 <= aj < articles@.len()
                                            && items@[jj].order_id == order_id
                                            && items@[jj].quantity == maxq
                                            && articles@[aj].article_id
                                            == items@[jj].article_id {
                                        let (jj, aj) = choose|jj: int, aj: int|
                                            #![trigger items@[jj], articles@[aj]]
                                            0 <= jj < ii as int + 1 && 0 <= aj
                                                < articles@.len() && items@[jj].order_id
                                                == order_id && items@[jj].quantity == maxq
                                                && articles@[aj].article_id
                                                == items@[jj].article_id;
                                        assert(jj < ii as int);
                                    }
                                }
                            }
                        }
                    }
                    ii = ii + 1;
                }
                proof {
                    assert forall|cid: i32| #[trigger]
                        m@.contains_key(cid) <==> has_most_bought(
                            orders@.take(oi as int + 1),
                            items@,
                            articles@,
                            cid,
                        ) by {
                        lemma_most_bought_step(orders@, items@, articles@, oi as int, cid);
                        if cid == ocid {
                            if exists_qualifier(orders@, items@, articles@, oi as int) {
                                let (jj, ai) = choose|jj: int, ai: int|
                                    #![trigger items@[jj], articles@[ai]]
                                    qualifier_at(orders@, items@, articles@, oi as int, jj, ai);
                                let jw = choose|jw: int|
                                    0 <= jw < items@.len() && (#[trigger] items@[jw]).order_id
                                        == order_id && items@[jw].quantity == maxq;
                                assert(items@[jj].quantity as int <= maxq as int);
                                assert(items@[jw].quantity as int <= items@[jj].quantity as int);
                                assert(items@[jj].quantity == maxq);
                            }
                            if m@.contains_key(ocid) && !pre_dom {
                                let (jj, aj) = choose|jj: int, aj: int|
                                    #![trigger items@[jj], articles@[aj]]
                                    0 <= jj < ni as int && 0 <= aj < articles@.len()
                                        && items@[jj].order_id == order_id
                                        && items@[jj].quantity == maxq
                                        && articles@[aj].article_id == items@[jj].article_id;
                                assert(qualifier_at(
                                    orders@,
                                    items@,
                                    articles@,
                                    oi as int,
                                    jj,
                                    aj,
                                ));
                            }
                        }
                    }
                }
            },
        }
        oi = oi + 1;
    }
    proof {
        assert(orders@.take(n as int) =~= orders@);
    }
    Ok(m)
}

} // verus!
