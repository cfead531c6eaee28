use rekcod::kvs::KvsForDb;
use rekcod::statement::{
    delete_statement, insert_or_update_statement, insert_statement, select_one_statement,
    select_statement, update_sub_key_statement, update_value_statement,
};

#[test]
fn insert_binds_the_five_columns() {
    let st = insert_statement(&KvsForDb::new("node", "n1", "online", "{}"));
    assert_eq!(
        st.sql,
        "INSERT INTO kvs (module, key, sub_key, third_key, value) VALUES (?, ?, ?, ?, ?)"
    );
    assert_eq!(st.binds, vec!["node", "n1", "online", "", "{}"]);
}

#[test]
fn upsert_names_the_composite_key() {
    let st = insert_or_update_statement(&KvsForDb::new("env", "global", "", "A=1"));
    assert!(st.sql.contains("ON CONFLICT (module, key, sub_key, third_key) DO UPDATE SET value = EXCLUDED.value"));
    assert_eq!(st.binds, vec!["env", "global", "", "", "A=1"]);
}

#[test]
fn select_one_with_key_only() {
    let st = select_one_statement("node", Some("n1"), None, None);
    assert_eq!(st.sql, "SELECT * FROM kvs WHERE module = ? AND key = ?  limit 1 ");
    assert_eq!(st.binds, vec!["node", "n1"]);
}

#[test]
fn select_with_all_keys() {
    let st = select_statement("node", Some("n1"), Some("online"), Some("t"));
    assert_eq!(
        st.sql,
        "SELECT * FROM kvs WHERE module = ? AND key = ?  AND sub_key = ? AND third_key = ?"
    );
    assert_eq!(st.binds, vec!["node", "n1", "online", "t"]);
}

#[test]
fn select_with_sub_key_only() {
    let st = select_statement("node", None, Some("online"), None);
    assert_eq!(st.sql, "SELECT * FROM kvs WHERE module = ? AND sub_key = ?");
    assert_eq!(st.binds, vec!["node", "online"]);
}

#[test]
fn delete_is_limited_to_one_row() {
    let st = delete_statement("app", Some("web1"), None, None);
    assert_eq!(st.sql, "DELETE FROM kvs WHERE module = ? AND key = ?  limit 1 ");
    assert_eq!(st.binds, vec!["app", "web1"]);
}

#[test]
fn update_value_binds_value_first() {
    let st = update_value_statement("app", "web1", None, None, "{}");
    assert_eq!(st.sql, "UPDATE kvs SET value = ? WHERE module = ? AND key = ?");
    assert_eq!(st.binds, vec!["{}", "app", "web1"]);
    let st = update_value_statement("node", "n1", Some("online"), None, "{}");
    assert_eq!(
        st.sql,
        "UPDATE kvs SET value = ? WHERE module = ? AND key = ? AND sub_key = ?"
    );
    assert_eq!(st.binds, vec!["{}", "node", "n1", "online"]);
}

#[test]
fn update_sub_key_binds_sub_key_and_value_first() {
    let st = update_sub_key_statement("node", "n1", "offline", "{}");
    assert_eq!(
        st.sql,
        "UPDATE kvs SET sub_key = ?, value = ? WHERE module = ? AND key = ?"
    );
    assert_eq!(st.binds, vec!["offline", "{}", "node", "n1"]);
}
