use rekcod::kvs::{DbSet, KvsError, KvsForDb};

fn row(module: &str, key: &str, sub_key: &str, value: &str) -> KvsForDb {
    KvsForDb::new(module, key, sub_key, value)
}

fn dump(db: &DbSet, module: &str) -> Vec<(i64, String, String, String, String)> {
    db.select(module, None, None, None)
        .into_iter()
        .map(|r| (r.id, r.key, r.sub_key, r.third_key, r.value))
        .collect()
}

#[test]
fn insert_twice_is_refused() {
    let mut db = DbSet::new();
    let r = row("node", "n1", "online", "{}");
    assert_eq!(db.insert(&r), Ok(()));
    assert_eq!(db.insert(&r), Err(KvsError::UniqueViolation));
    assert_eq!(db.len(), 1);
}

#[test]
fn insert_with_other_value_and_same_key_is_refused() {
    let mut db = DbSet::new();
    assert_eq!(db.insert(&row("node", "n1", "online", "a")), Ok(()));
    assert_eq!(
        db.insert(&row("node", "n1", "online", "b")),
        Err(KvsError::UniqueViolation)
    );
    assert_eq!(dump(&db, "node")[0].4, "a");
}

#[test]
fn ids_grow_with_every_insert() {
    let mut db = DbSet::new();
    db.insert(&row("m", "a", "", "1")).unwrap();
    db.insert(&row("m", "b", "", "2")).unwrap();
    db.insert(&row("m", "c", "", "3")).unwrap();
    let ids: Vec<i64> = dump(&db, "m").into_iter().map(|r| r.0).collect();
    assert_eq!(ids, vec![1, 2, 3]);
    assert_eq!(db.delete("m", Some("b"), None, None), 1);
    db.insert(&row("m", "d", "", "4")).unwrap();
    let ids: Vec<i64> = dump(&db, "m").into_iter().map(|r| r.0).collect();
    assert_eq!(ids, vec![1, 3, 4]);
}

#[test]
fn same_keys_in_other_sub_key_are_distinct_rows() {
    let mut db = DbSet::new();
    assert_eq!(db.insert(&row("node", "n1", "online", "a")), Ok(()));
    assert_eq!(db.insert(&row("node", "n1", "offline", "b")), Ok(()));
    assert_eq!(db.len(), 2);
}

#[test]
fn upsert_twice_is_like_once() {
    let mut once = DbSet::new();
    once.insert(&row("env", "other", "", "x")).unwrap();
    once.insert_or_update_value(&row("env", "global", "", "A=1")).unwrap();

    let mut twice = DbSet::new();
    twice.insert(&row("env", "other", "", "x")).unwrap();
    twice.insert_or_update_value(&row("env", "global", "", "A=1")).unwrap();
    twice.insert_or_update_value(&row("env", "global", "", "A=1")).unwrap();

    assert_eq!(dump(&once, "env"), dump(&twice, "env"));
    assert_eq!(twice.len(), 2);
}

#[test]
fn upsert_replaces_value_and_keeps_id() {
    let mut db = DbSet::new();
    db.insert_or_update_value(&row("env", "global", "", "A=1")).unwrap();
    db.insert_or_update_value(&row("env", "global", "", "A=2")).unwrap();
    assert_eq!(
        dump(&db, "env"),
        vec![(1, "global".to_string(), "".to_string(), "".to_string(), "A=2".to_string())]
    );
}

#[test]
fn update_value_matches_prefix_and_writes_value_only() {
    let mut db = DbSet::new();
    db.insert(&row("node", "n1", "online", "a")).unwrap();
    db.insert(&row("node", "n1", "offline", "b")).unwrap();
    db.insert(&row("node", "n2", "online", "c")).unwrap();
    assert_eq!(db.update_value("node", "n1", None, None, "z"), 2);
    let rows = dump(&db, "node");
    assert_eq!(rows[0].4, "z");
    assert_eq!(rows[0].2, "online");
    assert_eq!(rows[1].4, "z");
    assert_eq!(rows[1].2, "offline");
    assert_eq!(rows[2].4, "c");
    assert_eq!(db.update_value("node", "n1", Some("offline"), None, "y"), 1);
    let rows = dump(&db, "node");
    assert_eq!(rows[0].4, "z");
    assert_eq!(rows[1].4, "y");
    assert_eq!(db.update_value("node", "n9", None, None, "y"), 0);
}

#[test]
fn update_sub_key_rewrites_the_row_of_a_key() {
    let mut db = DbSet::new();
    db.insert(&row("node", "n1", "online", "a")).unwrap();
    db.insert(&row("node", "n2", "online", "c")).unwrap();
    assert_eq!(db.update_sub_key("node", "n1", "offline", "b"), Ok(1));
    let rows = dump(&db, "node");
    assert_eq!(rows[0], (1, "n1".to_string(), "offline".to_string(), "".to_string(), "b".to_string()));
    assert_eq!(rows[1].2, "online");
    assert_eq!(db.update_sub_key("node", "n3", "offline", "b"), Ok(0));
}

#[test]
fn update_sub_key_refuses_two_rows_of_a_key() {
    let mut db = DbSet::new();
    db.insert(&row("node", "n1", "online", "a")).unwrap();
    db.insert(&row("node", "n1", "offline", "b")).unwrap();
    assert_eq!(
        db.update_sub_key("node", "n1", "offline", "c"),
        Err(KvsError::UniqueViolation)
    );
    assert_eq!(dump(&db, "node")[0].4, "a");
}

#[test]
fn delete_removes_one_row_at_most() {
    let mut db = DbSet::new();
    db.insert(&row("app", "a", "", "1")).unwrap();
    db.insert(&row("app", "b", "", "2")).unwrap();
    db.insert(&row("app", "c", "", "3")).unwrap();
    assert_eq!(db.delete("app", None, None, None), 1);
    let keys: Vec<String> = dump(&db, "app").into_iter().map(|r| r.1).collect();
    assert_eq!(keys, vec!["b", "c"]);
    assert_eq!(db.delete("app", Some("zzz"), None, None), 0);
    assert_eq!(db.len(), 2);
}

#[test]
fn select_one_takes_the_first_match() {
    let mut db = DbSet::new();
    db.insert(&row("node", "n1", "online", "a")).unwrap();
    db.insert(&row("node", "n2", "offline", "b")).unwrap();
    let r = db.select_one("node", None, Some("offline"), None).unwrap();
    assert_eq!(r.key, "n2");
    assert_eq!(r.id, 2);
    assert!(db.select_one("node", Some("n3"), None, None).is_none());
    assert!(db.select_one("app", None, None, None).is_none());
    assert_eq!(db.select_one("node", None, None, None).unwrap().key, "n1");
}

#[test]
fn select_filters_by_given_keys() {
    let mut db = DbSet::new();
    db.insert(&row("node", "n1", "online", "a")).unwrap();
    db.insert(&row("node", "n2", "offline", "b")).unwrap();
    db.insert(&row("node", "n3", "online", "c")).unwrap();
    db.insert(&row("app", "n1", "online", "d")).unwrap();
    let online: Vec<String> = db
        .select("node", None, Some("online"), None)
        .into_iter()
        .map(|r| r.key)
        .collect();
    assert_eq!(online, vec!["n1", "n3"]);
    assert_eq!(db.select("node", None, None, None).len(), 3);
    assert_eq!(db.select("node", Some("n2"), Some("online"), None).len(), 0);
    assert_eq!(db.select("node", None, None, Some("")).len(), 3);
    assert_eq!(db.select("node", None, None, Some("x")).len(), 0);
}

#[test]
fn default_row_is_empty() {
    let r = KvsForDb::default();
    assert_eq!(r.id, 0);
    assert_eq!(r.module, "");
    assert_eq!(r.value, "");
}
