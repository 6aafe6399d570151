//! The generic persistence operations: table-agnostic fetch, lookup, insert,
//! update and delete, written once against the capability contract and
//! specialized per entity kind, plus the assembly of an order's line items.
use crate::db::{articles_of, db_unchanged, first_where, items_of, items_of_order, Db};
use crate::sql::{
    build_delete_all_sql, build_delete_by_id_sql, build_insert_sql, build_select_all_sql,
    build_select_by_id_sql, build_update_sql,
};
use crate::traits::{find_by_id_contract, Insertable, Mappable};
use crate::types::{Article, Error, ItemRow, OrderItem};
use vstd::prelude::*;

pub use crate::db::initialize_tables;

verus! {

/// What `insert_record` promises.  A success adds the base row of the item
/// and runs the kind's post-insert hook; `DuplicateId` reports a present id
/// and changes nothing; a database failure leaves either nothing, or — when
/// it struck inside the hook — the base row with part of the hook's work,
/// exactly the window the split between base write and hook opens.
pub open spec fn insert_contract<T: Insertable>(
    item: T,
    pre: Db,
    post: Db,
    r: Result<(), Error>,
) -> bool {
    match r {
        Ok(_) => !T::has_id(pre, item.id_spec()) && (exists|row: T::Row, mid: Db|
            item.is_row_of(row) && #[trigger] T::insert_row_effect(row, pre, mid)
                && T::post_insert_ok(item, mid, post)),
        Err(e) => {
            &&& (e == Error::DuplicateId || e == Error::SqlExecution)
            &&& e == Error::DuplicateId ==> T::has_id(pre, item.id_spec()) && db_unchanged(
                pre,
                post,
            )
            &&& e == Error::SqlExecution ==> db_unchanged(pre, post) || (exists|
                row: T::Row,
                mid: Db,
            |
                item.is_row_of(row) && #[trigger] T::insert_row_effect(row, pre, mid)
                    && T::post_insert_partial(item, mid, post))
        },
    }
}

/// What `update_record` promises: on success the full-row overwrite of every
/// row carrying the item's id — and nothing else — took place; on failure
/// nothing changed.  A miss is not an error: overwriting zero rows succeeds.
pub open spec fn update_contract<T: Insertable>(
    item: T,
    pre: Db,
    post: Db,
    r: Result<(), Error>,
) -> bool {
    match r {
        Ok(_) => exists|row: T::Row| #[trigger]
            item.is_row_of(row) && T::update_effect(row, pre, post),
        Err(e) => e == Error::SqlExecution && db_unchanged(pre, post),
    }
}

/// What `delete_record_by_id` promises.  With an id, every base row carrying
/// it goes and the post-delete hook runs; without one, the whole table is
/// cleared and the hook runs for the bulk case.  On failure either nothing
/// changed or the base delete went through and the hook failed.
pub open spec fn delete_contract<T: Insertable>(
    id: Option<i32>,
    pre: Db,
    post: Db,
    r: Result<(), Error>,
) -> bool {
    match r {
        Ok(_) => exists|mid: Db| #[trigger]
            T::delete_rows_effect(id, pre, mid) && T::post_delete_ok(id, mid, post),
        Err(e) => e == Error::SqlExecution && (db_unchanged(pre, post) || (exists|mid: Db|
            #[trigger] T::delete_rows_effect(id, pre, mid) && db_unchanged(mid, post))),
    }
}

/// What `fetch_all_records` promises: one reconstructed value per row of the
/// kind's table, in table order.
pub open spec fn fetch_all_contract<T: Mappable>(db: Db, r: Result<Vec<T>, Error>) -> bool {
    match r {
        Ok(list) => list@.len() == T::table_view(db).len() && (forall|j: int|
            0 <= j < list@.len() ==> T::from_row_ok(db, T::table_view(db)[j], #[trigger] list@[j])),
        Err(e) => e == Error::SqlExecution || (exists|j: int|
            0 <= j < T::table_view(db).len() && T::from_row_err(
                db,
                #[trigger] T::table_view(db)[j],
                e,
            )),
    }
}

/// Inserts one record: duplicate check first, then the synthesized INSERT
/// with the item's values bound in column order, then the kind's post-insert
/// hook.  A failing hook leaves the already committed base row in place.
pub fn insert_record<T: Mappable>(db: &mut Db, item: &T) -> (r: Result<(), Error>)
    ensures
        insert_contract(*item, *old(db), *final(db), r),
{
    let id = item.id_value();
    match T::check_duplicate(db, id) {
        Ok(true) => {
            return Err(Error::DuplicateId);
        },
        Ok(false) => {},
        Err(e) => {
            return Err(e);
        },
    }
    let sql = build_insert_sql(T::table_name(), &T::columns());
    let row = item.to_row();
    let ghost pre = *db;
    match T::exec_insert(db, sql.as_str(), &row) {
        Ok(_) => {},
        Err(e) => {
            return Err(e);
        },
    }
    let ghost mid = *db;
    match item.post_insert(db) {
        Ok(_) => {
            proof {
                assert(item.is_row_of(row) && T::insert_row_effect(row, pre, mid)
                    && T::post_insert_ok(*item, mid, *db));
            }
            Ok(())
        },
        Err(e) => {
            proof {
                assert(item.is_row_of(row) && T::insert_row_effect(row, pre, mid)
                    && T::post_insert_partial(*item, mid, *db));
            }
            Err(e)
        },
    }
}

/// Overwrites the full row of the record carrying the item's id, binding the
/// id as the WHERE parameter and every column — the id column among them —
/// as SET values in column order.
pub fn update_record<T: Insertable>(db: &mut Db, item: &T) -> (r: Result<(), Error>)
    ensures
        update_contract(*item, *old(db), *final(db), r),
{
    let sql = build_update_sql(T::table_name(), &T::columns(), T::id_column());
    let row = item.to_row();
    T::exec_update(db, sql.as_str(), &row)
}

/// Removes the record with the given id — or, with no id, every record of
/// the kind — and then runs the kind's post-delete hook with the same scope.
pub fn delete_record_by_id<T: Mappable>(db: &mut Db, id: &Option<i32>) -> (r: Result<
    (),
    Error,
>)
    ensures
        delete_contract::<T>(*id, *old(db), *final(db), r),
{
    let ghost pre = *db;
    match id {
        Some(id_value) => {
            let sql = build_delete_by_id_sql(T::table_name(), T::id_column());
            match T::exec_delete(db, sql.as_str(), Some(*id_value)) {
                Ok(_) => {},
                Err(e) => {
                    return Err(e);
                },
            }
        },
        None => {
            let sql = build_delete_all_sql(T::table_name());
            match T::exec_delete(db, sql.as_str(), None) {
                Ok(_) => {},
                Err(e) => {
                    return Err(e);
                },
            }
        },
    }
    let ghost mid = *db;
    let r = T::post_delete(db, *id);
    proof {
        assert(T::delete_rows_effect(*id, pre, mid));
    }
    r
}

/// Reconstructs every record of the kind, in table order.
pub fn fetch_all_records<T: Mappable>(db: &Db) -> (r: Result<Vec<T>, Error>)
    ensures
        fetch_all_contract::<T>(*db, r),
{
    let sql = build_select_all_sql(T::table_name(), &T::columns());
    let rows = match T::exec_select_all(db, sql.as_str()) {
        Ok(rows) => rows,
        Err(e) => {
            return Err(e);
        },
    };
    let mut list: Vec<T> = Vec::new();
    let n = rows.len();
    let mut i: usize = 0;
    while i < n
        invariant
            n == rows@.len(),
            rows@ == T::table_view(*db),
            i <= n,
            list@.len() == i,
            forall|j: int|
                0 <= j < i ==> T::from_row_ok(*db, T::table_view(*db)[j], #[trigger] list@[j]),
        decreases n - i,
    {
        match T::from_row(db, &rows[i]) {
            Ok(e) => {
                list.push(e);
            },
            Err(err) => {
                return Err(err);
            },
        }
        i = i + 1;
    }
    Ok(list)
}

/// Reconstructs the record with the given business id, or reports `NotFound`.
pub fn find_record_by_id<T: Mappable>(db: &Db, id_value: i32) -> (r: Result<T, Error>)
    ensures
        find_by_id_contract::<T>(*db, id_value, r),
{
    let sql = build_select_by_id_sql(T::table_name(), &T::columns(), T::id_column());
    match T::exec_select_by_id(db, sql.as_str(), id_value) {
        Ok(Some(row)) => T::from_row(db, &row),
        Ok(None) => Err(Error::NotFound),
        Err(e) => Err(e),
    }
}

/// The values carried by a sequence of successful parse results.
pub open spec fn ok_values<T>(rows: Seq<Result<T, Error>>) -> Seq<T> {
    rows.map_values(|row: Result<T, Error>| row->Ok_0)
}

/// The given items were inserted one after another, each insert meeting its
/// full contract, from `pre` to `post`.
pub open spec fn imports_chain<T: Insertable>(pre: Db, post: Db, items: Seq<T>) -> bool
    decreases items.len(),
{
    if items.len() == 0 {
        post == pre
    } else {
        exists|mid: Db|
            #[trigger] insert_contract(items[0], pre, mid, Ok::<(), Error>(()))
                && imports_chain(mid, post, items.drop_first())
    }
}

pub proof fn lemma_imports_chain_snoc<T: Insertable>(
    pre: Db,
    mid: Db,
    post: Db,
    items: Seq<T>,
    x: T,
)
    requires
        imports_chain(pre, mid, items),
        insert_contract(x, mid, post, Ok::<(), Error>(())),
    ensures
        imports_chain(pre, post, items.push(x)),
    decreases items.len(),
{
    if items.len() == 0 {
        assert(mid == pre);
        assert(items.push(x)[0] == x);
        assert(items.push(x).drop_first() =~= Seq::<T>::empty());
        assert(imports_chain(post, post, items.push(x).drop_first()));
    } else {
        let m1 = choose|m1: Db|
            #[trigger] insert_contract(items[0], pre, m1, Ok::<(), Error>(()))
                && imports_chain(m1, mid, items.drop_first());
        lemma_imports_chain_snoc(m1, mid, post, items.drop_first(), x);
        assert(items.push(x)[0] == items[0]);
        assert(items.push(x).drop_first() =~= items.drop_first().push(x));
    }
}

/// What `import_records` promises.  The rows are taken in order; every
/// successfully parsed row up to the first failure is inserted with the full
/// insert contract; the first parse failure or failed insert aborts the run
/// with that error, and no later row is attempted.  Rows already inserted
/// stay committed.
pub open spec fn import_contract<T: Insertable>(
    rows: Seq<Result<T, Error>>,
    pre: Db,
    post: Db,
    r: Result<(), Error>,
) -> bool {
    match r {
        Ok(_) => (forall|j: int| 0 <= j < rows.len() ==> rows[j] is Ok) && imports_chain(
            pre,
            post,
            ok_values(rows),
        ),
        Err(e) => exists|k: int|
            #![trigger rows.take(k)]
            {
                &&& 0 <= k < rows.len()
                &&& (forall|j: int| 0 <= j < k ==> rows[j] is Ok)
                &&& exists|mid: Db|
                    #[trigger] imports_chain(pre, mid, ok_values(rows.take(k))) && (match rows[k] {
                        Err(pe) => e == pe && post == mid,
                        Ok(item) => insert_contract(item, mid, post, Err::<(), Error>(e)),
                    })
            },
    }
}

/// Bulk import: inserts the parsed rows one at a time, in order, aborting on
/// the first parse failure or failed insert.  Rows inserted before the abort
/// remain committed.
pub fn import_records<T: Mappable>(db: &mut Db, rows: &Vec<Result<T, Error>>) -> (r: Result<
    (),
    Error,
>)
    ensures
        import_contract(rows@, *old(db), *final(db), r),
{
    let ghost pre = *db;
    let n = rows.len();
    let mut i: usize = 0;
    while i < n
        invariant
            pre == *old(db),
            n == rows@.len(),
            i <= n,
            forall|j: int| 0 <= j < i ==> rows@[j] is Ok,
            imports_chain(pre, *db, ok_values(rows@.take(i as int))),
        decreases n - i,
    {
        match &rows[i] {
            Err(e) => {
                proof {
                    assert(imports_chain(pre, *db, ok_values(rows@.take(i as int))));
                }
                return Err(*e);
            },
            Ok(item) => {
                let ghost mid = *db;
                match insert_record(db, item) {
                    Ok(_) => {
                        proof {
                            lemma_imports_chain_snoc(
                                pre,
                                mid,
                                *db,
                                ok_values(rows@.take(i as int)),
                                *item,
                            );
                            assert(ok_values(rows@.take(i as int + 1)) =~= ok_values(
                                rows@.take(i as int),
                            ).push(*item));
                        }
                    },
                    Err(e) => {
                        proof {
                            assert(imports_chain(pre, mid, ok_values(rows@.take(i as int))));
                        }
                        return Err(e);
                    },
                }
            },
        }
        i = i + 1;
    }
    proof {
        assert(rows@.take(n as int) =~= rows@);
    }
    Ok(())
}

/// The line items the join rows denote, resolved against the article table:
/// one item per join row whose article exists, in join-row order, carrying
/// the first matching article row.
pub open spec fn resolve_items(rows: Seq<ItemRow>, articles: Seq<Article>) -> Seq<OrderItem>
    decreases rows.len(),
{
    if rows.len() == 0 {
        Seq::empty()
    } else {
        let rest = resolve_items(rows.drop_first(), articles);
        match first_where(articles, |a: Article| a.article_id == rows[0].article_id) {
            Some(a) => seq![OrderItem { article: a, quantity: rows[0].quantity }] + rest,
            None => rest,
        }
    }
}

pub proof fn lemma_resolve_items_push(rows: Seq<ItemRow>, articles: Seq<Article>, x: ItemRow)
    ensures
        resolve_items(rows.push(x), articles) == resolve_items(rows, articles) + (match first_where(
            articles,
            |a: Article| a.article_id == x.article_id,
        ) {
            Some(a) => seq![OrderItem { article: a, quantity: x.quantity }],
            None => Seq::<OrderItem>::empty(),
        }),
    decreases rows.len(),
{
    let tail = match first_where(articles, |a: Article| a.article_id == x.article_id) {
        Some(a) => seq![OrderItem { article: a, quantity: x.quantity }],
        None => Seq::<OrderItem>::empty(),
    };
    if rows.len() == 0 {
        assert(rows.push(x).drop_first() =~= Seq::<ItemRow>::empty());
        assert(resolve_items(Seq::<ItemRow>::empty(), articles) == Seq::<OrderItem>::empty());
        assert(resolve_items(rows, articles) + tail =~= tail);
        match first_where(articles, |a: Article| a.article_id == x.article_id) {
            Some(a) => {
                assert(resolve_items(rows.push(x), articles) =~= tail);
            },
            None => {},
        }
    } else {
        assert(rows.push(x)[0] == rows[0]);
        assert(rows.push(x).drop_first() =~= rows.drop_first().push(x));
        lemma_resolve_items_push(rows.drop_first(), articles, x);
        match first_where(articles, |a: Article| a.article_id == rows[0].article_id) {
            Some(a) => {
                assert(resolve_items(rows.push(x), articles) =~= resolve_items(rows, articles)
                    + tail);
            },
            None => {},
        }
    }
}

/// The line items of the given order inside the store.
pub open spec fn joined_items(db: Db, order_id: i32) -> Seq<OrderItem> {
    resolve_items(items_of_order(items_of(db), order_id), articles_of(db))
}

/// Fetches the line items of an order: its join rows, each resolved into an
/// article plus a quantity; a join row whose article is missing is dropped,
/// as an inner join drops it.
pub fn fetch_order_items(db: &Db, order_id: i32) -> (r: Result<Vec<OrderItem>, Error>)
    ensures
        match r {
            Ok(v) => v@ == joined_items(*db, order_id),
            Err(e) => e == Error::SqlExecution,
        },
{
    let rows = match crate::db::exec_select_items_by_order(db, order_id) {
        Ok(rows) => rows,
        Err(e) => {
            return Err(e);
        },
    };
    let mut out: Vec<OrderItem> = Vec::new();
    let n = rows.len();
    let mut i: usize = 0;
    while i < n
        invariant
            n == rows@.len(),
            rows@ == items_of_order(items_of(*db), order_id),
            i <= n,
            out@ == resolve_items(rows@.take(i as int), articles_of(*db)),
        decreases n - i,
    {
        let sql = build_select_by_id_sql(
            <Article as Insertable>::table_name(),
            &<Article as Insertable>::columns(),
            <Article as Insertable>::id_column(),
        );
        let row_article_id = rows[i].article_id;
        let found = match <Article as Insertable>::exec_select_by_id(db, sql.as_str(), row_article_id) {
            Ok(found) => found,
            Err(e) => {
                return Err(e);
            },
        };
        let ghost pre_out = out@;
        match found {
            Some(article) => {
                let quantity = rows[i].quantity;
                out.push(OrderItem { article, quantity });
            },
            None => {},
        }
        proof {
            assert(rows@.take(i as int + 1) =~= rows@.take(i as int).push(rows@[i as int]));
            lemma_resolve_items_push(rows@.take(i as int), articles_of(*db), rows@[i as int]);
            match first_where(
                articles_of(*db),
                |a: Article| a.article_id == rows@[i as int].article_id,
            ) {
                Some(a) => {
                    assert(out@ =~= pre_out + seq![
                        OrderItem { article: a, quantity: rows@[i as int].quantity },
                    ]);
                },
                None => {},
            }
        }
        i = i + 1;
    }
    proof {
        assert(rows@.take(n as int) =~= rows@);
    }
    Ok(out)
}

} // verus!
