//! Synthesis of the SQL statements the generic operations issue.
//!
//! Each statement shape has a spec-level description and an executable builder
//! proved to produce exactly that text.  The binding order is part of the
//! contract: an insert binds one value per column in column order, and an
//! update binds the business id as parameter 1 followed by every column —
//! including the id column itself — as parameters 2 onward.
use vstd::prelude::*;

verus! {

/// The given parts joined by the given separator.
pub open spec fn spec_join(parts: Seq<Seq<char>>, sep: Seq<char>) -> Seq<char>
    decreases parts.len(),
{
    if parts.len() == 0 {
        Seq::empty()
    } else if parts.len() == 1 {
        parts[0]
    } else {
        parts[0] + sep + spec_join(parts.drop_first(), sep)
    }
}

pub proof fn lemma_join_push(parts: Seq<Seq<char>>, sep: Seq<char>, last: Seq<char>)
    ensures
        parts.len() == 0 ==> spec_join(parts.push(last), sep) == last,
        parts.len() > 0 ==> spec_join(parts.push(last), sep) == spec_join(parts, sep) + sep
            + last,
    decreases parts.len(),
{
    if parts.len() == 0 {
        assert(parts.push(last).len() == 1);
        assert(spec_join(parts.push(last), sep) == parts.push(last)[0]);
    } else if parts.len() == 1 {
        assert(parts.push(last).drop_first() =~= seq![last]);
        assert(spec_join(seq![last], sep) == last);
        assert(spec_join(parts.push(last), sep) =~= parts[0] + sep + last);
        assert(spec_join(parts, sep) == parts[0]);
    } else {
        assert(parts.push(last).drop_first() =~= parts.drop_first().push(last));
        lemma_join_push(parts.drop_first(), sep, last);
        assert(spec_join(parts, sep) + sep + last =~= parts[0] + sep + (spec_join(
            parts.drop_first(),
            sep,
        ) + sep + last));
    }
}

/// The views of a vector of owned strings.
pub open spec fn strings_view(parts: Seq<String>) -> Seq<Seq<char>> {
    parts.map_values(|p: String| p@)
}

/// The views of a vector of string slices.
pub open spec fn strs_view(parts: Seq<&str>) -> Seq<Seq<char>> {
    parts.map_values(|p: &str| p@)
}

/// The given parts joined by the given separator.
pub fn join_strings(parts: &Vec<String>, sep: &str) -> (r: String)
    ensures
        r@ == spec_join(strings_view(parts@), sep@),
{
    let mut r = String::new();
    let n = parts.len();
    let mut i: usize = 0;
    while i < n
        invariant
            n == parts@.len(),
            i <= n,
            r@ == spec_join(strings_view(parts@.take(i as int)), sep@),
        decreases n - i,
    {
        if i > 0 {
            r.append(sep);
        }
        r.append(parts[i].as_str());
        proof {
            assert(strings_view(parts@.take(i + 1 as int)) =~= strings_view(
                parts@.take(i as int),
            ).push(parts@[i as int]@));
            lemma_join_push(strings_view(parts@.take(i as int)), sep@, parts@[i as int]@);
            assert(strings_view(parts@.take(i as int)).len() == 0 ==> r@ == Seq::<
                char,
            >::empty() + parts@[i as int]@);
            assert(Seq::<char>::empty() + parts@[i as int]@ =~= parts@[i as int]@);
        }
        i = i + 1;
    }
    proof {
        assert(parts@.take(n as int) =~= parts@);
    }
    r
}

/// The text of the positional parameter with the given index.
pub open spec fn spec_param_token(i: int) -> Seq<char> {
    if i == 1 {
        "?1"@
    } else if i == 2 {
        "?2"@
    } else if i == 3 {
        "?3"@
    } else if i == 4 {
        "?4"@
    } else if i == 5 {
        "?5"@
    } else if i == 6 {
        "?6"@
    } else if i == 7 {
        "?7"@
    } else if i == 8 {
        "?8"@
    } else {
        "?9"@
    }
}

pub fn param_token(i: usize) -> (r: &'static str)
    requires
        1 <= i <= 9,
    ensures
        r@ == spec_param_token(i as int),
{
    match i {
        1 => "?1",
        2 => "?2",
        3 => "?3",
        4 => "?4",
        5 => "?5",
        6 => "?6",
        7 => "?7",
        8 => "?8",
        _ => "?9",
    }
}

/// The positional parameters `?1` through `?n`.
pub open spec fn spec_placeholders(n: int) -> Seq<Seq<char>> {
    Seq::new(n as nat, |i: int| spec_param_token(i + 1))
}

/// The `col = ?k` fragments of an update's SET list: one per column, with the
/// parameter index starting at 2 because parameter 1 is the WHERE id.
pub open spec fn spec_set_parts(cols: Seq<Seq<char>>) -> Seq<Seq<char>> {
    Seq::new(cols.len(), |i: int| cols[i] + " = "@ + spec_param_token(i + 2))
}

/// `INSERT INTO <table> (<columns>) VALUES (<placeholders>)`.
pub open spec fn spec_insert_sql(table: Seq<char>, cols: Seq<Seq<char>>) -> Seq<char> {
    "INSERT INTO "@ + table + " ("@ + spec_join(cols, ", "@) + ") VALUES ("@ + spec_join(
        spec_placeholders(cols.len() as int),
        ", "@,
    ) + ")"@
}

/// `UPDATE <table> SET <col = ?k list> WHERE <id column> = ?1`.  Every column
/// appears in the SET list, the id column among them.
pub open spec fn spec_update_sql(table: Seq<char>, cols: Seq<Seq<char>>, id_col: Seq<char>) -> Seq<
    char,
> {
    "UPDATE "@ + table + " SET "@ + spec_join(spec_set_parts(cols), ", "@) + " WHERE "@ + id_col
        + " = ?1"@
}

/// `SELECT <columns> FROM <table>`.
pub open spec fn spec_select_all_sql(table: Seq<char>, cols: Seq<Seq<char>>) -> Seq<char> {
    "SELECT "@ + spec_join(cols, ","@) + " FROM "@ + table
}

/// `SELECT <columns> FROM <table> WHERE <id column> = ?1`.
pub open spec fn spec_select_by_id_sql(
    table: Seq<char>,
    cols: Seq<Seq<char>>,
    id_col: Seq<char>,
) -> Seq<char> {
    spec_select_all_sql(table, cols) + " WHERE "@ + id_col + " = ?1"@
}

/// `DELETE FROM <table>`.
pub open spec fn spec_delete_all_sql(table: Seq<char>) -> Seq<char> {
    "DELETE FROM "@ + table
}

/// `DELETE FROM <table> WHERE <id column> = ?1`.
pub open spec fn spec_delete_by_id_sql(table: Seq<char>, id_col: Seq<char>) -> Seq<char> {
    spec_delete_all_sql(table) + " WHERE "@ + id_col + " = ?1"@
}

fn strs_to_strings(parts: &Vec<&str>) -> (r: Vec<String>)
    ensures
        strings_view(r@) == strs_view(parts@),
{
    let mut r: Vec<String> = Vec::new();
    let n = parts.len();
    let mut i: usize = 0;
    while i < n
        invariant
            n == parts@.len(),
            i <= n,
            r@.len() == i,
            strings_view(r@) =~= strs_view(parts@.take(i as int)),
        decreases n - i,
    {
        let s = parts[i].to_owned();
        assert(s@ == parts@[i as int]@);
        let ghost pre_r = r@;
        r.push(s);
        proof {
            let post = parts@.take(i as int + 1);
            assert(r@ == pre_r.push(r@[i as int]));
            assert forall|j: int| 0 <= j < post.len() implies strings_view(r@)[j] == strs_view(
                post,
            )[j] by {
                if j < i as int {
                    assert(r@[j] == pre_r[j]);
                    assert(strings_view(pre_r)[j] == strs_view(parts@.take(i as int))[j]);
                    assert(post[j] == parts@.take(i as int)[j]);
                } else {
                    assert(post[j] == parts@[i as int]);
                }
            }
            assert(strings_view(r@) =~= strs_view(post));
        }
        i = i + 1;
    }
    proof {
        assert(parts@.take(n as int) =~= parts@);
    }
    r
}

pub fn build_insert_sql(table: &str, cols: &Vec<&str>) -> (r: String)
    requires
        cols@.len() <= 9,
    ensures
        r@ == spec_insert_sql(table@, strs_view(cols@)),
{
    let col_strings = strs_to_strings(cols);
    let cols_joined = join_strings(&col_strings, ", ");
    let mut tokens: Vec<String> = Vec::new();
    let n = cols.len();
    let mut i: usize = 0;
    while i < n
        invariant
            n == cols@.len(),
            n <= 9,
            i <= n,
            tokens@.len() == i,
            strings_view(tokens@) =~= spec_placeholders(n as int).take(i as int),
        decreases n - i,
    {
        let s = param_token(i + 1).to_owned();
        assert(s@ == spec_param_token(i as int + 1));
        let ghost pre_tokens = tokens@;
        tokens.push(s);
        proof {
            let post = spec_placeholders(n as int).take(i as int + 1);
            assert(tokens@ == pre_tokens.push(tokens@[i as int]));
            assert forall|j: int| 0 <= j < post.len() implies strings_view(tokens@)[j] == post[j] by {
                if j < i as int {
                    assert(tokens@[j] == pre_tokens[j]);
                    assert(strings_view(pre_tokens)[j] == spec_placeholders(n as int).take(
                        i as int,
                    )[j]);
                } else {
                    assert(post[j] == spec_param_token(j + 1));
                }
            }
            assert(strings_view(tokens@) =~= post);
        }
        i = i + 1;
    }
    proof {
        assert(spec_placeholders(n as int).take(n as int) =~= spec_placeholders(n as int));
    }
    let tokens_joined = join_strings(&tokens, ", ");
    let mut r = String::new();
    r.append("INSERT INTO ");
    r.append(table);
    r.append(" (");
    r.append(cols_joined.as_str());
    r.append(") VALUES (");
    r.append(tokens_joined.as_str());
    r.append(")");
    proof {
        assert(r@ =~= spec_insert_sql(table@, strs_view(cols@)));
    }
    r
}

pub fn build_update_sql(table: &str, cols: &Vec<&str>, id_col: &str) -> (r: String)
    requires
        cols@.len() <= 7,
    ensures
        r@ == spec_update_sql(table@, strs_view(cols@), id_col@),
{
    let mut set_parts: Vec<String> = Vec::new();
    let n = cols.len();
    let mut i: usize = 0;
    while i < n
        invariant
            n == cols@.len(),
            n <= 7,
            i <= n,
            set_parts@.len() == i,
            strings_view(set_parts@) =~= spec_set_parts(strs_view(cols@)).take(i as int),
        decreases n - i,
    {
        let mut part = cols[i].to_owned();
        part.append(" = ");
        part.append(param_token(i + 2));
        assert(part@ == cols@[i as int]@ + " = "@ + spec_param_token(i as int + 2));
        let ghost pre_parts = set_parts@;
        set_parts.push(part);
        proof {
            let full = spec_set_parts(strs_view(cols@));
            let post = full.take(i as int + 1);
            assert(set_parts@ == pre_parts.push(set_parts@[i as int]));
            assert forall|j: int| 0 <= j < post.len() implies strings_view(set_parts@)[j]
                == post[j] by {
                if j < i as int {
                    assert(set_parts@[j] == pre_parts[j]);
                    assert(strings_view(pre_parts)[j] == full.take(i as int)[j]);
                } else {
                    assert(post[j] == strs_view(cols@)[j] + " = "@ + spec_param_token(j + 2));
                }
            }
            assert(strings_view(set_parts@) =~= post);
        }
        i = i + 1;
    }
    proof {
        assert(spec_set_parts(strs_view(cols@)).take(n as int) =~= spec_set_parts(
            strs_view(cols@),
        ));
    }
    let set_joined = join_strings(&set_parts, ", ");
    let mut r = String::new();
    r.append("UPDATE ");
    r.append(table);
    r.append(" SET ");
    r.append(set_joined.as_str());
    r.append(" WHERE ");
    r.append(id_col);
    r.append(" = ?1");
    proof {
        assert(r@ =~= spec_update_sql(table@, strs_view(cols@), id_col@));
    }
    r
}

pub fn build_select_all_sql(table: &str, cols: &Vec<&str>) -> (r: String)
    ensures
        r@ == spec_select_all_sql(table@, strs_view(cols@)),
{
    let col_strings = strs_to_strings(cols);
    let cols_joined = join_strings(&col_strings, ",");
    let mut r = String::new();
    r.append("SELECT ");
    r.append(cols_joined.as_str());
    r.append(" FROM ");
    r.append(table);
    proof {
        assert(r@ =~= spec_select_all_sql(table@, strs_view(cols@)));
    }
    r
}

pub fn build_select_by_id_sql(table: &str, cols: &Vec<&str>, id_col: &str) -> (r: String)
    ensures
        r@ == spec_select_by_id_sql(table@, strs_view(cols@), id_col@),
{
    let mut r = build_select_all_sql(table, cols);
    r.append(" WHERE ");
    r.append(id_col);
    r.append(" = ?1");
    proof {
        assert(r@ =~= spec_select_by_id_sql(table@, strs_view(cols@), id_col@));
    }
    r
}

pub fn build_delete_all_sql(table: &str) -> (r: String)
    ensures
        r@ == spec_delete_all_sql(table@),
{
    let mut r = String::new();
    r.append("DELETE FROM ");
    r.append(table);
    proof {
        assert(r@ =~= spec_delete_all_sql(table@));
    }
    r
}

pub fn build_delete_by_id_sql(table: &str, id_col: &str) -> (r: String)
    ensures
        r@ == spec_delete_by_id_sql(table@, id_col@),
{
    let mut r = build_delete_all_sql(table);
    r.append(" WHERE ");
    r.append(id_col);
    r.append(" = ?1");
    proof {
        assert(r@ =~= spec_delete_by_id_sql(table@, id_col@));
    }
    r
}

} // verus!
