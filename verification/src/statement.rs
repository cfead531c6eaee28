//! The store's operations as SQL text with the values to bind.
//!
//! Each function builds what is sent to the database for one operation of
//! [`crate::kvs::DbSet`]: the text, with one `?` for each value, and the
//! values in the order of their marks.

use vstd::prelude::*;
use vstd::string::*;
use crate::kvs::KvsForDb;
use crate::text::strs;

verus! {

/// A statement ready to be prepared and run.
#[derive(Debug)]
pub struct Statement {
    pub sql: String,
    pub binds: Vec<String>,
}

/// Text of `insert`.
pub const INSERT_SQL: &'static str =
    "INSERT INTO kvs (module, key, sub_key, third_key, value) VALUES (?, ?, ?, ?, ?)";

/// Text of `insert_or_update_value`.
pub const UPSERT_SQL: &'static str =
    "INSERT INTO kvs (module, key, sub_key, third_key, value) VALUES (?, ?, ?, ?, ?) ON CONFLICT (module, key, sub_key, third_key) DO UPDATE SET value = EXCLUDED.value";

/// Head of `update_value`.
pub const UPDATE_VALUE_SQL: &'static str = "UPDATE kvs SET value = ? WHERE module = ? AND key = ?";

/// Text of `update_sub_key`.
pub const UPDATE_SUB_KEY_SQL: &'static str =
    "UPDATE kvs SET sub_key = ?, value = ? WHERE module = ? AND key = ?";

/// Head of `delete`.
pub const DELETE_SQL: &'static str = "DELETE FROM kvs WHERE module = ?";

/// Head of `select` and `select_one`.
pub const SELECT_SQL: &'static str = "SELECT * FROM kvs WHERE module = ?";

/// Condition on `key`.
pub const AND_KEY: &'static str = " AND key = ? ";

/// Condition on `sub_key`.
pub const AND_SUB_KEY: &'static str = " AND sub_key = ?";

/// Condition on `third_key`.
pub const AND_THIRD_KEY: &'static str = " AND third_key = ?";

/// Limit to one row.
pub const LIMIT_ONE: &'static str = " limit 1 ";

/// `head` followed by one condition for each key that is given, and by the
/// limit where one is asked for.
pub open spec fn where_text(
    head: Seq<char>,
    key: bool,
    sub_key: bool,
    third_key: bool,
    limit_one: bool,
) -> Seq<char> {
    head + (if key {
        AND_KEY@
    } else {
        Seq::empty()
    }) + (if sub_key {
        AND_SUB_KEY@
    } else {
        Seq::empty()
    }) + (if third_key {
        AND_THIRD_KEY@
    } else {
        Seq::empty()
    }) + (if limit_one {
        LIMIT_ONE@
    } else {
        Seq::empty()
    })
}

/// `first` followed by each key that is given, in the order of the columns.
pub open spec fn where_binds(
    first: Seq<Seq<char>>,
    key: Option<&str>,
    sub_key: Option<&str>,
    third_key: Option<&str>,
) -> Seq<Seq<char>> {
    first + (match key {
        Some(k) => seq![k@],
        None => Seq::empty(),
    }) + (match sub_key {
        Some(k) => seq![k@],
        None => Seq::empty(),
    }) + (match third_key {
        Some(k) => seq![k@],
        None => Seq::empty(),
    })
}

fn where_statement(
    head: &str,
    first: Vec<String>,
    key: Option<&str>,
    sub_key: Option<&str>,
    third_key: Option<&str>,
    limit_one: bool,
) -> (st: Statement)
    ensures
        st.sql@ == where_text(head@, key is Some, sub_key is Some, third_key is Some, limit_one),
        strs(st.binds@) == where_binds(strs(first@), key, sub_key, third_key),
{
    let mut sql = head.to_owned();
    let mut binds = first;
    let ghost b0 = strs(binds@);
    if let Some(k) = key {
        sql.append(AND_KEY);
        binds.push(k.to_owned());
        assert(strs(binds@) =~= b0 + seq![k@]);
    } else {
        assert(strs(binds@) =~= b0 + Seq::<Seq<char>>::empty());
    }
    let ghost b1 = strs(binds@);
    if let Some(k) = sub_key {
        sql.append(AND_SUB_KEY);
        binds.push(k.to_owned());
        assert(strs(binds@) =~= b1 + seq![k@]);
    } else {
        assert(strs(binds@) =~= b1 + Seq::<Seq<char>>::empty());
    }
    let ghost b2 = strs(binds@);
    if let Some(k) = third_key {
        sql.append(AND_THIRD_KEY);
        binds.push(k.to_owned());
        assert(strs(binds@) =~= b2 + seq![k@]);
    } else {
        assert(strs(binds@) =~= b2 + Seq::<Seq<char>>::empty());
    }
    if limit_one {
        sql.append(LIMIT_ONE);
    }
    assert(sql@ =~= where_text(
        head@,
        key is Some,
        sub_key is Some,
        third_key is Some,
        limit_one,
    ));
    Statement { sql, binds }
}

fn row_binds(kvs: &KvsForDb) -> (binds: Vec<String>)
    ensures
        strs(binds@) == seq![kvs.module@, kvs.key@, kvs.sub_key@, kvs.third_key@, kvs.value@],
{
    let mut binds: Vec<String> = Vec::new();
    binds.push(kvs.module.clone());
    binds.push(kvs.key.clone());
    binds.push(kvs.sub_key.clone());
    binds.push(kvs.third_key.clone());
    binds.push(kvs.value.clone());
    assert(strs(binds@) =~= seq![
        kvs.module@,
        kvs.key@,
        kvs.sub_key@,
        kvs.third_key@,
        kvs.value@,
    ]);
    binds
}

/// The statement of `insert`: the five columns of `kvs` but its `id`.
pub fn insert_statement(kvs: &KvsForDb) -> (st: Statement)
    ensures
        st.sql@ == INSERT_SQL@,
        strs(st.binds@) == seq![kvs.module@, kvs.key@, kvs.sub_key@, kvs.third_key@, kvs.value@],
{
    Statement { sql: INSERT_SQL.to_owned(), binds: row_binds(kvs) }
}

/// The statement of `insert_or_update_value`.
pub fn insert_or_update_statement(kvs: &KvsForDb) -> (st: Statement)
    ensures
        st.sql@ == UPSERT_SQL@,
        strs(st.binds@) == seq![kvs.module@, kvs.key@, kvs.sub_key@, kvs.third_key@, kvs.value@],
{
    Statement { sql: UPSERT_SQL.to_owned(), binds: row_binds(kvs) }
}

/// The statement of `update_value`: the value, then the module and the keys
/// that are given.
pub fn update_value_statement(
    module: &str,
    key: &str,
    sub_key: Option<&str>,
    third_key: Option<&str>,
    value: &str,
) -> (st: Statement)
    ensures
        st.sql@ == where_text(
            UPDATE_VALUE_SQL@,
            false,
            sub_key is Some,
            third_key is Some,
            false,
        ),
        strs(st.binds@) == where_binds(seq![value@, module@, key@], None, sub_key, third_key),
{
    let mut first: Vec<String> = Vec::new();
    first.push(value.to_owned());
    first.push(module.to_owned());
    first.push(key.to_owned());
    assert(strs(first@) =~= seq![value@, module@, key@]);
    where_statement(UPDATE_VALUE_SQL, first, None, sub_key, third_key, false)
}

/// The statement of `update_sub_key`.
pub fn update_sub_key_statement(module: &str, key: &str, sub_key: &str, value: &str) -> (st:
    Statement)
    ensures
        st.sql@ == UPDATE_SUB_KEY_SQL@,
        strs(st.binds@) == seq![sub_key@, value@, module@, key@],
{
    let mut binds: Vec<String> = Vec::new();
    binds.push(sub_key.to_owned());
    binds.push(value.to_owned());
    binds.push(module.to_owned());
    binds.push(key.to_owned());
    assert(strs(binds@) =~= seq![sub_key@, value@, module@, key@]);
    Statement { sql: UPDATE_SUB_KEY_SQL.to_owned(), binds }
}

fn module_bind(module: &str) -> (first: Vec<String>)
    ensures
        strs(first@) == seq![module@],
{
    let mut first: Vec<String> = Vec::new();
    first.push(module.to_owned());
    assert(strs(first@) =~= seq![module@]);
    first
}

/// The statement of `delete`: at most one row goes.
pub fn delete_statement(
    module: &str,
    key: Option<&str>,
    sub_key: Option<&str>,
    third_key: Option<&str>,
) -> (st: Statement)
    ensures
        st.sql@ == where_text(DELETE_SQL@, key is Some, sub_key is Some, third_key is Some, true),
        strs(st.binds@) == where_binds(seq![module@], key, sub_key, third_key),
{
    where_statement(DELETE_SQL, module_bind(module), key, sub_key, third_key, true)
}

/// The statement of `select_one`: at most one row comes back.
pub fn select_one_statement(
    module: &str,
    key: Option<&str>,
    sub_key: Option<&str>,
    third_key: Option<&str>,
) -> (st: Statement)
    ensures
        st.sql@ == where_text(SELECT_SQL@, key is Some, sub_key is Some, third_key is Some, true),
        strs(st.binds@) == where_binds(seq![module@], key, sub_key, third_key),
{
    where_statement(SELECT_SQL, module_bind(module), key, sub_key, third_key, true)
}

/// The statement of `select`.
pub fn select_statement(
    module: &str,
    key: Option<&str>,
    sub_key: Option<&str>,
    third_key: Option<&str>,
) -> (st: Statement)
    ensures
        st.sql@ == where_text(SELECT_SQL@, key is Some, sub_key is Some, third_key is Some, false),
        strs(st.binds@) == where_binds(seq![module@], key, sub_key, third_key),
{
    where_statement(SELECT_SQL, module_bind(module), key, sub_key, third_key, false)
}

} // verus!
