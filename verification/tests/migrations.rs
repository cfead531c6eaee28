use rekcod::migrations::{
    describe, parse_i64, parse_migration_name, resolve, MigrationError, MigrationType,
};

#[test]
fn numerals() {
    assert_eq!(parse_i64("0"), Some(0));
    assert_eq!(parse_i64("20240101"), Some(20240101));
    assert_eq!(parse_i64("+7"), Some(7));
    assert_eq!(parse_i64("-7"), Some(-7));
    assert_eq!(parse_i64("007"), Some(7));
    assert_eq!(parse_i64("9223372036854775807"), Some(i64::MAX));
    assert_eq!(parse_i64("-9223372036854775808"), Some(i64::MIN));
    assert_eq!(parse_i64("9223372036854775808"), None);
    assert_eq!(parse_i64("-9223372036854775809"), None);
    assert_eq!(parse_i64("99999999999999999999999999"), None);
    assert_eq!(parse_i64(""), None);
    assert_eq!(parse_i64("-"), None);
    assert_eq!(parse_i64("+"), None);
    assert_eq!(parse_i64("1a"), None);
    assert_eq!(parse_i64(" 1"), None);
    assert_eq!(parse_i64("--1"), None);
    for text in ["0", "-0", "+0", "12", "-12", "1_000", "١٢"] {
        assert_eq!(parse_i64(text), text.parse::<i64>().ok());
    }
}

#[test]
fn kinds_by_ending() {
    assert_eq!(MigrationType::from_filename("init.sql"), MigrationType::Simple);
    assert_eq!(MigrationType::from_filename("init.up.sql"), MigrationType::ReversibleUp);
    assert_eq!(MigrationType::from_filename("init.down.sql"), MigrationType::ReversibleDown);
    assert_eq!(MigrationType::Simple.suffix(), ".sql");
    assert_eq!(MigrationType::ReversibleUp.suffix(), ".up.sql");
    assert_eq!(MigrationType::ReversibleDown.suffix(), ".down.sql");
}

#[test]
fn descriptions() {
    assert_eq!(describe("create_kvs_table.sql"), "create kvs table");
    assert_eq!(describe("add_index.up.sql"), "add index");
    assert_eq!(describe("add_index.down.sql"), "add index");
    assert_eq!(describe("x.sql.sql"), "x");
    assert_eq!(describe(".sql"), "");
}

#[test]
fn names() {
    let m = parse_migration_name("1_init_schema.sql").unwrap().unwrap();
    assert_eq!(m.version, 1);
    assert_eq!(m.description, "init schema");
    assert_eq!(m.migration_type, MigrationType::Simple);
    assert!(parse_migration_name("README.md").unwrap().is_none());
    assert!(parse_migration_name("init.sql").unwrap().is_none());
    assert!(parse_migration_name("1_init.txt").unwrap().is_none());
    match parse_migration_name("one_init.sql") {
        Err(MigrationError::InvalidVersion(name)) => assert_eq!(name, "one_init.sql"),
        _ => panic!("the version should have been refused"),
    }
}

fn file(name: &str, sql: &str) -> (String, String) {
    (name.to_string(), sql.to_string())
}

#[test]
fn migrations_come_out_in_ascending_order() {
    let files = vec![
        file("10_ten.sql", "c"),
        file("2_two.sql", "b"),
        file("notes.txt", "-"),
        file("1_one.sql", "a"),
        file("2_two_again.sql", "b2"),
    ];
    let ms = resolve(&files).unwrap();
    let got: Vec<(i64, String, String)> = ms
        .into_iter()
        .map(|m| (m.version, m.description, m.sql))
        .collect();
    assert_eq!(
        got,
        vec![
            (1, "one".to_string(), "a".to_string()),
            (2, "two".to_string(), "b".to_string()),
            (2, "two again".to_string(), "b2".to_string()),
            (10, "ten".to_string(), "c".to_string()),
        ]
    );
    assert_eq!(resolve(&vec![]).unwrap().len(), 0);
}

#[test]
fn bad_version_stops_the_resolve() {
    let files = vec![file("1_one.sql", "a"), file("x_two.sql", "b"), file("y_three.sql", "c")];
    match resolve(&files) {
        Err(MigrationError::InvalidVersion(name)) => assert_eq!(name, "x_two.sql"),
        Ok(_) => panic!("the version should have been refused"),
    }
}
