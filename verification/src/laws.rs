//! The laws the persistence layer obeys, stated over the same views and
//! contracts its operations carry and proved from them.
use crate::db::{
    articles_of, customers_of, db_unchanged, find_article_spec, find_customer_spec, first_where,
    has_article_id, has_customer_id, has_order_id, items_of, items_of_order, items_without,
    lemma_first_where_props, lemma_first_where_push, orders_of, replace_articles,
    replace_customers, replace_orders, Db,
};
use crate::operations::{
    delete_contract, insert_contract, joined_items, resolve_items, update_contract,
};
use crate::statistics::{customer_revenue, customer_revenue_ok, has_order_for_customer};
use crate::traits::{find_by_id_contract, Insertable, Mappable};
use crate::types::{
    item_rows_of, Article, Customer, Error, ItemRow, Order, OrderItem, OrderRow, OrderStatus,
    OrderType,
};
use vstd::prelude::*;

verus! {

/// Inserting a record whose business id is already present never succeeds,
/// and when it is rejected as a duplicate the store is left unchanged.
pub proof fn law_duplicate_insert_rejected<T: Insertable>(
    item: T,
    pre: Db,
    post: Db,
    r: Result<(), Error>,
)
    requires
        T::has_id(pre, item.id_spec()),
        insert_contract(item, pre, post, r),
    ensures
        !(r is Ok),
        r == Err::<(), Error>(Error::DuplicateId) ==> db_unchanged(pre, post),
{
}

/// A successful insert of an article followed by a lookup of its id returns
/// exactly the inserted article.
pub proof fn law_insert_then_find_article(pre: Db, mid: Db, a: Article, found: Article)
    requires
        insert_contract(a, pre, mid, Ok::<(), Error>(())),
        find_by_id_contract::<Article>(mid, a.article_id, Ok(found)),
    ensures
        found == a,
{
    let (row, m) = choose|row: Article, m: Db|
        a.is_row_of(row) && #[trigger] <Article as Insertable>::insert_row_effect(row, pre, m)
            && <Article as Insertable>::post_insert_ok(a, m, mid);
    assert(articles_of(mid) == articles_of(pre).push(a));
    let p = |x: Article| x.article_id == a.article_id;
    lemma_first_where_props(articles_of(pre), p);
    match first_where(articles_of(pre), p) {
        Some(x) => {
            let i = choose|i: int|
                0 <= i < articles_of(pre).len() && articles_of(pre)[i] == x;
            assert(has_article_id(articles_of(pre), a.article_id));
        },
        None => {},
    }
    lemma_first_where_push(articles_of(pre), p, a);
    assert(find_article_spec(mid, a.article_id) == Some(a));
}

/// A successful insert of a customer followed by a lookup of its id returns
/// exactly the inserted customer.
pub proof fn law_insert_then_find_customer(pre: Db, mid: Db, c: Customer, found: Customer)
    requires
        insert_contract(c, pre, mid, Ok::<(), Error>(())),
        find_by_id_contract::<Customer>(mid, c.customer_id, Ok(found)),
    ensures
        found == c,
{
    let (row, m) = choose|row: Customer, m: Db|
        c.is_row_of(row) && #[trigger] <Customer as Insertable>::insert_row_effect(row, pre, m)
            && <Customer as Insertable>::post_insert_ok(c, m, mid);
    assert(customers_of(mid) == customers_of(pre).push(c));
    let p = |x: Customer| x.customer_id == c.customer_id;
    lemma_first_where_props(customers_of(pre), p);
    match first_where(customers_of(pre), p) {
        Some(x) => {
            let i = choose|i: int|
                0 <= i < customers_of(pre).len() && customers_of(pre)[i] == x;
            assert(has_customer_id(customers_of(pre), c.customer_id));
        },
        None => {},
    }
    lemma_first_where_push(customers_of(pre), p, c);
    assert(find_customer_spec(mid, c.customer_id) == Some(c));
}

proof fn lemma_filter_keeps_all<A>(s: Seq<A>, p: spec_fn(A) -> bool)
    requires
        forall|i: int| 0 <= i < s.len() ==> p(#[trigger] s[i]),
    ensures
        s.filter(p) == s,
    decreases s.len(),
{
    reveal(Seq::filter);
    if s.len() > 0 {
        lemma_filter_keeps_all(s.drop_last(), p);
        assert(s.drop_last().push(s.last()) =~= s);
    }
}

proof fn lemma_filter_drops_all<A>(s: Seq<A>, p: spec_fn(A) -> bool)
    requires
        forall|i: int| 0 <= i < s.len() ==> !p(#[trigger] s[i]),
    ensures
        s.filter(p) == Seq::<A>::empty(),
    decreases s.len(),
{
    reveal(Seq::filter);
    if s.len() > 0 {
        lemma_filter_drops_all(s.drop_last(), p);
    }
}

proof fn lemma_resolve_exact(rows: Seq<ItemRow>, arts: Seq<Article>, src: Seq<OrderItem>, oid: i32)
    requires
        rows.len() == src.len(),
        forall|i: int|
            0 <= i < rows.len() ==> #[trigger] rows[i] == (ItemRow {
                order_id: oid,
                article_id: src[i].article.article_id,
                quantity: src[i].quantity,
            }),
        forall|i: int|
            0 <= i < src.len() ==> first_where(
                arts,
                |x: Article| x.article_id == (#[trigger] src[i]).article.article_id,
            ) == Some(src[i].article),
    ensures
        resolve_items(rows, arts) == src,
    decreases rows.len(),
{
    if rows.len() == 0 {
        assert(resolve_items(rows, arts) =~= src);
    } else {
        assert(rows[0] == (ItemRow {
            order_id: oid,
            article_id: src[0].article.article_id,
            quantity: src[0].quantity,
        }));
        assert(first_where(arts, |x: Article| x.article_id == rows[0].article_id) == Some(
            src[0].article,
        ));
        lemma_resolve_exact(rows.drop_first(), arts, src.drop_first(), oid);
        assert(src[0] == (OrderItem { article: src[0].article, quantity: src[0].quantity }));
        assert(resolve_items(rows, arts) =~= seq![src[0]] + src.drop_first());
        assert(seq![src[0]] + src.drop_first() =~= src);
    }
}

/// A successful insert of an order followed by a lookup of its id returns
/// the inserted order, field for field: same id, same customer, same date,
/// same enumerated values, and the same line items — provided the store
/// held no stray join rows under that order id, the order's customer is the
/// stored customer of that id, and each line item's article is the stored
/// article of its id.
pub proof fn law_insert_then_find_order(pre: Db, mid: Db, o: Order, found: Order)
    requires
        insert_contract(o, pre, mid, Ok::<(), Error>(())),
        find_by_id_contract::<Order>(mid, o.order_id, Ok(found)),
        !crate::statistics::has_item_for_order(items_of(pre), o.order_id),
        find_customer_spec(pre, o.customer.customer_id) == Some(o.customer),
        forall|i: int|
            0 <= i < o.items@.len() ==> find_article_spec(
                pre,
                (#[trigger] o.items@[i]).article.article_id,
            ) == Some(o.items@[i].article),
    ensures
        found.order_id == o.order_id,
        found.customer == o.customer,
        found.date == o.date,
        found.order_type == o.order_type,
        found.status == o.status,
        found.items@ == o.items@,
{
    let (row, m) = choose|row: OrderRow, m: Db|
        o.is_row_of(row) && #[trigger] <Order as Insertable>::insert_row_effect(row, pre, m)
            && <Order as Insertable>::post_insert_ok(o, m, mid);
    assert(orders_of(mid) == orders_of(pre).push(row));
    assert(articles_of(mid) == articles_of(pre));
    assert(customers_of(mid) == customers_of(pre));
    assert(items_of(mid) == items_of(pre) + item_rows_of(o));

    // the lookup finds exactly the inserted row
    let p = |x: OrderRow| x.order_id == o.order_id;
    lemma_first_where_props(orders_of(pre), p);
    match first_where(orders_of(pre), p) {
        Some(x) => {
            let i = choose|i: int| 0 <= i < orders_of(pre).len() && orders_of(pre)[i] == x;
            assert(has_order_id(orders_of(pre), o.order_id));
        },
        None => {},
    }
    lemma_first_where_push(orders_of(pre), p, row);
    assert(crate::db::find_order_row_spec(mid, o.order_id) == Some(row));

    // the enumerated fields round-trip through their display strings
    law_order_type_round_trip(o.order_type);
    law_order_status_round_trip(o.status);

    // the join rows of this order are exactly the inserted ones, and they
    // resolve back into the order's line items
    let pi = |it: ItemRow| it.order_id == o.order_id;
    assert(items_of(mid).filter(pi) =~= items_of(pre).filter(pi) + item_rows_of(o).filter(pi))
        by {
        Seq::<ItemRow>::filter_distributes_over_add(
            items_of(pre),
            item_rows_of(o),
            pi,
        );
    }
    lemma_filter_drops_all(items_of(pre), pi);
    lemma_filter_keeps_all(item_rows_of(o), pi);
    assert(items_of_order(items_of(mid), o.order_id) =~= item_rows_of(o));
    lemma_resolve_exact(item_rows_of(o), articles_of(mid), o.items@, o.order_id);
    assert(joined_items(mid, o.order_id) == o.items@);
}

/// An update aimed at a business id that no row carries overwrites nothing:
/// it succeeds and every table is exactly as before.
pub proof fn law_update_missing_id_article(pre: Db, post: Db, a: Article)
    requires
        !has_article_id(articles_of(pre), a.article_id),
        update_contract(a, pre, post, Ok::<(), Error>(())),
    ensures
        db_unchanged(pre, post),
{
    assert(articles_of(post) == replace_articles(articles_of(pre), a));
    assert(replace_articles(articles_of(pre), a) =~= articles_of(pre));
}

/// An update aimed at a missing customer id overwrites nothing.
pub proof fn law_update_missing_id_customer(pre: Db, post: Db, c: Customer)
    requires
        !has_customer_id(customers_of(pre), c.customer_id),
        update_contract(c, pre, post, Ok::<(), Error>(())),
    ensures
        db_unchanged(pre, post),
{
    assert(customers_of(post) == replace_customers(customers_of(pre), c));
    assert(replace_customers(customers_of(pre), c) =~= customers_of(pre));
}

/// An update aimed at a missing order id overwrites nothing — in the orders
/// table and everywhere else: an update never touches the join table.
pub proof fn law_update_missing_id_order(pre: Db, post: Db, o: Order)
    requires
        !has_order_id(orders_of(pre), o.order_id),
        update_contract(o, pre, post, Ok::<(), Error>(())),
    ensures
        db_unchanged(pre, post),
{
    let row = choose|row: OrderRow| #[trigger]
        o.is_row_of(row) && <Order as Insertable>::update_effect(row, pre, post);
    assert(orders_of(post) == replace_orders(orders_of(pre), row));
    assert(replace_orders(orders_of(pre), row) =~= orders_of(pre));
}

/// A bulk delete of the orders empties the orders table and the join table
/// with it, and touches neither articles nor customers.
pub proof fn law_delete_all_orders(pre: Db, post: Db)
    requires
        delete_contract::<Order>(None, pre, post, Ok::<(), Error>(())),
    ensures
        orders_of(post) == Seq::<OrderRow>::empty(),
        items_of(post) == Seq::<ItemRow>::empty(),
        articles_of(post) == articles_of(pre),
        customers_of(post) == customers_of(pre),
{
}

/// Inserting an order with `N` line items writes exactly `N` join rows, all
/// under the order's id, and leaves articles and customers untouched —
/// provided no join row carried that order id before.
pub proof fn law_order_insert_join_rows(pre: Db, mid: Db, o: Order)
    requires
        insert_contract(o, pre, mid, Ok::<(), Error>(())),
        !crate::statistics::has_item_for_order(items_of(pre), o.order_id),
    ensures
        items_of_order(items_of(mid), o.order_id) == item_rows_of(o),
        item_rows_of(o).len() == o.items@.len(),
        forall|i: int|
            0 <= i < item_rows_of(o).len() ==> (#[trigger] item_rows_of(o)[i]).order_id
                == o.order_id,
        articles_of(mid) == articles_of(pre),
        customers_of(mid) == customers_of(pre),
{
    let (row, m) = choose|row: OrderRow, m: Db|
        o.is_row_of(row) && #[trigger] <Order as Insertable>::insert_row_effect(row, pre, m)
            && <Order as Insertable>::post_insert_ok(o, m, mid);
    assert(items_of(mid) == items_of(pre) + item_rows_of(o));
    let pi = |it: ItemRow| it.order_id == o.order_id;
    assert(items_of(mid).filter(pi) =~= items_of(pre).filter(pi) + item_rows_of(o).filter(pi))
        by {
        Seq::<ItemRow>::filter_distributes_over_add(
            items_of(pre),
            item_rows_of(o),
            pi,
        );
    }
    lemma_filter_drops_all(items_of(pre), pi);
    lemma_filter_keeps_all(item_rows_of(o), pi);
    assert(items_of_order(items_of(mid), o.order_id) =~= item_rows_of(o));
}

/// Deleting an order removes its row and exactly its join rows: afterwards
/// no join row carries the order's id, every join row of another order is
/// still there, and articles and customers are untouched.
pub proof fn law_order_delete_join_rows(pre: Db, post: Db, order_id: i32)
    requires
        delete_contract::<Order>(Some(order_id), pre, post, Ok::<(), Error>(())),
    ensures
        orders_of(post) == crate::db::orders_without(orders_of(pre), order_id),
        items_of(post) == items_without(items_of(pre), order_id),
        !crate::statistics::has_item_for_order(items_of(post), order_id),
        forall|x: ItemRow|
            items_of(pre).contains(x) && x.order_id != order_id ==> items_of(post).contains(x),
        articles_of(post) == articles_of(pre),
        customers_of(post) == customers_of(pre),
{
    let mid = choose|mid: Db| #[trigger]
        <Order as Insertable>::delete_rows_effect(Some(order_id), pre, mid)
            && <Order as Insertable>::post_delete_ok(Some(order_id), mid, post);
    let pi = |it: ItemRow| it.order_id != order_id;
    assert forall|j: int|
        0 <= j < items_of(post).len() implies (#[trigger] items_of(post)[j]).order_id
        != order_id by {
        Seq::<ItemRow>::lemma_filter_pred(items_of(pre), pi, j);
    }
    assert forall|x: ItemRow|
        items_of(pre).contains(x) && x.order_id != order_id implies items_of(post).contains(
        x,
    ) by {
        let j = choose|j: int| 0 <= j < items_of(pre).len() && items_of(pre)[j] == x;
        Seq::<ItemRow>::lemma_filter_contains(items_of(pre), pi, j);
    }
}

proof fn lemma_customer_revenue_no_orders(
    orders: Seq<OrderRow>,
    items: Seq<ItemRow>,
    articles: Seq<Article>,
    cid: i32,
)
    requires
        !has_order_for_customer(orders, cid),
    ensures
        customer_revenue(orders, items, articles, cid) == 0,
    decreases orders.len(),
{
    if orders.len() > 0 {
        assert(orders[orders.len() - 1].customer_id != cid);
        assert forall|j: int|
            0 <= j < orders.drop_last().len() implies (#[trigger] orders.drop_last()[j]).customer_id
            != cid by {
            assert(orders.drop_last()[j] == orders[j]);
        }
        lemma_customer_revenue_no_orders(orders.drop_last(), items, articles, cid);
    }
}

/// A customer with no orders appears in the revenue report with revenue
/// zero — never as a missing key.
pub proof fn law_zero_orders_zero_revenue(db: Db, m: Map<i32, i128>, cid: i32)
    requires
        customer_revenue_ok(db, m),
        has_customer_id(customers_of(db), cid),
        !has_order_for_customer(orders_of(db), cid),
    ensures
        m.contains_key(cid),
        m[cid] == 0,
{
    assert(m.contains_key(cid));
    assert(m[cid] == customer_revenue(orders_of(db), items_of(db), articles_of(db), cid));
    lemma_customer_revenue_no_orders(orders_of(db), items_of(db), articles_of(db), cid);
}

/// Order types survive the round trip through their stored display string.
pub proof fn law_order_type_round_trip(t: OrderType)
    ensures
        OrderType::spec_from_str(t.spec_str()) == Some(t),
{
    reveal_strlit("Return");
    reveal_strlit("Sale");
    match t {
        OrderType::Return => {},
        OrderType::Sale => {
            assert("Sale"@.len() != "Return"@.len());
        },
    }
}

/// Order statuses survive the round trip through their stored display
/// string.
pub proof fn law_order_status_round_trip(s: OrderStatus)
    ensures
        OrderStatus::spec_from_str(s.spec_str()) == Some(s),
{
    reveal_strlit("Pending");
    reveal_strlit("Completed");
    reveal_strlit("Shipped");
    reveal_strlit("Delivered");
    assert("Pending"@.len() == 7);
    assert("Completed"@.len() == 9);
    assert("Shipped"@.len() == 7);
    assert("Delivered"@.len() == 9);
    assert("Shipped"@[0] != "Pending"@[0]);
    assert("Shipped"@ != "Pending"@);
    assert("Delivered"@[0] != "Completed"@[0]);
    assert("Delivered"@ != "Completed"@);
}

} // verus!
