//! The capability contract every entity kind satisfies to take part in
//! generic persistence: how its table is named and laid out, how an instance
//! becomes a row and a row becomes an instance, how duplicates are detected,
//! and which side effects run after the base-row insert and delete.
use crate::db::{db_unchanged, Db};
use crate::sql::{
    spec_delete_all_sql, spec_delete_by_id_sql, spec_insert_sql, spec_select_all_sql,
    spec_select_by_id_sql, spec_update_sql,
};
use crate::types::Error;
use vstd::prelude::*;

verus! {

/// What an entity kind provides so the generic operations can persist it.
pub trait Insertable: Sized {
    /// The shape of one row of the kind's own table.
    type Row;

    /// The backing table.
    spec fn table_name_spec() -> Seq<char>;

    /// The column list, whose order governs value binding.
    spec fn columns_spec() -> Seq<Seq<char>>;

    /// The column holding the business id.
    spec fn id_column_spec() -> Seq<char>;

    /// The business id carried by a row.
    spec fn row_id(row: Self::Row) -> i32;

    /// The business id of an instance.
    spec fn id_spec(self) -> i32;

    /// The row an instance is stored as.
    spec fn is_row_of(self, row: Self::Row) -> bool;

    /// The kind's own table inside the store.
    spec fn table_view(db: Db) -> Seq<Self::Row>;

    /// Some row of the kind's own table carries this business id.
    spec fn has_id(db: Db, id: i32) -> bool;

    /// The first row of the kind's own table carrying this business id.
    spec fn find_row_spec(db: Db, id: i32) -> Option<Self::Row>;

    /// What a successful base-row insert does to the store.
    spec fn insert_row_effect(row: Self::Row, pre: Db, post: Db) -> bool;

    /// What a successful full-row update does to the store.
    spec fn update_effect(row: Self::Row, pre: Db, post: Db) -> bool;

    /// What a successful base-table delete (by id, or of every row) does to
    /// the store.
    spec fn delete_rows_effect(id: Option<i32>, pre: Db, post: Db) -> bool;

    /// What the post-insert hook does to the store when it succeeds.
    spec fn post_insert_ok(item: Self, pre: Db, post: Db) -> bool;

    /// What may remain of the post-insert hook when it fails part-way.
    spec fn post_insert_partial(item: Self, pre: Db, post: Db) -> bool;

    /// What the post-delete hook does to the store when it succeeds.
    spec fn post_delete_ok(id: Option<i32>, pre: Db, post: Db) -> bool;

    /// `find_row_spec` is `Some` exactly when `has_id` holds, and what it
    /// returns is a row of the table carrying the id.
    proof fn lemma_find_matches_has(db: Db, id: i32)
        ensures
            (Self::find_row_spec(db, id) is Some) == Self::has_id(db, id),
            match Self::find_row_spec(db, id) {
                Some(row) => Self::table_view(db).contains(row) && Self::row_id(row) == id,
                None => true,
            },
    ;

    fn table_name() -> (r: &'static str)
        ensures
            r@ == Self::table_name_spec(),
    ;

    fn columns() -> (r: Vec<&'static str>)
        ensures
            crate::sql::strs_view(r@) == Self::columns_spec(),
            r@.len() <= 7,
    ;

    fn id_column() -> (r: &'static str)
        ensures
            r@ == Self::id_column_spec(),
    ;

    fn id_value(&self) -> (r: i32)
        ensures
            r == self.id_spec(),
    ;

    fn to_row(&self) -> (r: Self::Row)
        ensures
            self.is_row_of(r),
    ;

    /// Runs the synthesized INSERT for the kind's own table.
    fn exec_insert(db: &mut Db, sql: &str, row: &Self::Row) -> (r: Result<(), Error>)
        requires
            sql@ == spec_insert_sql(Self::table_name_spec(), Self::columns_spec()),
        ensures
            match r {
                Ok(_) => Self::insert_row_effect(*row, *old(db), *final(db)),
                Err(e) => e == Error::SqlExecution && db_unchanged(*old(db), *final(db)),
            },
    ;

    /// Runs the synthesized UPDATE for the kind's own table.
    fn exec_update(db: &mut Db, sql: &str, row: &Self::Row) -> (r: Result<(), Error>)
        requires
            sql@ == spec_update_sql(
                Self::table_name_spec(),
                Self::columns_spec(),
                Self::id_column_spec(),
            ),
        ensures
            match r {
                Ok(_) => Self::update_effect(*row, *old(db), *final(db)),
                Err(e) => e == Error::SqlExecution && db_unchanged(*old(db), *final(db)),
            },
    ;

    /// Runs the synthesized DELETE for the kind's own table.
    fn exec_delete(db: &mut Db, sql: &str, id: Option<i32>) -> (r: Result<(), Error>)
        requires
            id is Some ==> sql@ == spec_delete_by_id_sql(
                Self::table_name_spec(),
                Self::id_column_spec(),
            ),
            id is None ==> sql@ == spec_delete_all_sql(Self::table_name_spec()),
        ensures
            match r {
                Ok(_) => Self::delete_rows_effect(id, *old(db), *final(db)),
                Err(e) => e == Error::SqlExecution && db_unchanged(*old(db), *final(db)),
            },
    ;

    /// Runs the synthesized whole-table SELECT for the kind's own table.
    fn exec_select_all(db: &Db, sql: &str) -> (r: Result<Vec<Self::Row>, Error>)
        requires
            sql@ == spec_select_all_sql(Self::table_name_spec(), Self::columns_spec()),
        ensures
            match r {
                Ok(v) => v@ == Self::table_view(*db),
                Err(e) => e == Error::SqlExecution,
            },
    ;

    /// Runs the synthesized by-id SELECT for the kind's own table.
    fn exec_select_by_id(db: &Db, sql: &str, id: i32) -> (r: Result<Option<Self::Row>, Error>)
        requires
            sql@ == spec_select_by_id_sql(
                Self::table_name_spec(),
                Self::columns_spec(),
                Self::id_column_spec(),
            ),
        ensures
            match r {
                Ok(opt) => opt == Self::find_row_spec(*db, id),
                Err(e) => e == Error::SqlExecution,
            },
    ;

    /// Whether the business id is already present in the kind's own table.
    fn check_duplicate(db: &Db, id: i32) -> (r: Result<bool, Error>)
        ensures
            match r {
                Ok(b) => b == Self::has_id(*db, id),
                Err(e) => e == Error::SqlExecution,
            },
    ;

    /// The side effect run after the base-row insert; orders write their join
    /// rows here, every other kind does nothing.
    fn post_insert(&self, db: &mut Db) -> (r: Result<(), Error>)
        ensures
            match r {
                Ok(_) => Self::post_insert_ok(*self, *old(db), *final(db)),
                Err(e) => e == Error::SqlExecution && Self::post_insert_partial(
                    *self,
                    *old(db),
                    *final(db),
                ),
            },
    ;

    /// The side effect run after the base-table delete; orders drop their
    /// join rows here, every other kind does nothing.
    fn post_delete(db: &mut Db, id: Option<i32>) -> (r: Result<(), Error>)
        ensures
            match r {
                Ok(_) => Self::post_delete_ok(id, *old(db), *final(db)),
                Err(e) => e == Error::SqlExecution && db_unchanged(*old(db), *final(db)),
            },
    ;
}

/// Mapping of a stored row back to a value of the kind, with the live store
/// at hand so composite kinds can issue further reads.
pub trait Mappable: Insertable {
    /// When a reconstruction is right: the value the given row denotes inside
    /// the given store.
    spec fn from_row_ok(db: Db, row: Self::Row, e: Self) -> bool;

    /// When a reconstruction may fail with the given error.
    spec fn from_row_err(db: Db, row: Self::Row, err: Error) -> bool;

    fn from_row(db: &Db, row: &Self::Row) -> (r: Result<Self, Error>)
        ensures
            match r {
                Ok(e) => Self::from_row_ok(*db, *row, e),
                Err(err) => Self::from_row_err(*db, *row, err),
            },
    ;
}

/// What `find_record_by_id` promises: the first row carrying the id is
/// reconstructed, a miss is `NotFound`, and every other failure is either the
/// database failing or the reconstruction failing on the found row.
pub open spec fn find_by_id_contract<T: Mappable>(db: Db, id: i32, r: Result<T, Error>) -> bool {
    match r {
        Ok(e) => match T::find_row_spec(db, id) {
            Some(row) => T::from_row_ok(db, row, e),
            None => false,
        },
        Err(err) => err == Error::SqlExecution || (match T::find_row_spec(db, id) {
            None => err == Error::NotFound,
            Some(row) => T::from_row_err(db, row, err),
        }),
    }
}

/// Searching for a record in the store by business id.
pub trait Searchable: Mappable {
    fn search(db: &Db, id: i32) -> (r: Result<Self, Error>)
        ensures
            find_by_id_contract::<Self>(*db, id, r),
    ;
}

} // verus!
