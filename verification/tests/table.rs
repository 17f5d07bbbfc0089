use scylladb_rs::table::duplicates_found;
use scylladb_rs::table::Table;

fn example() -> Table {
    Table::new("test_table".to_string(), "test_keyspace".to_string())
}

#[test]
fn index_statements() {
    let t = example();
    assert_eq!(
        t.create_index("age_idx", "age"),
        "CREATE INDEX IF NOT EXISTS age_idx ON test_keyspace.test_table (age)"
    );
    assert_eq!(t.drop_index("age_idx"), "DROP INDEX IF EXISTS test_keyspace.age_idx");
}

#[test]
fn column_statements() {
    let t = example();
    assert_eq!(
        t.create_column("score", "double"),
        "ALTER TABLE test_keyspace.test_table ADD score double"
    );
    assert_eq!(t.delete_column("score"), "ALTER TABLE test_keyspace.test_table DROP score");
}

#[test]
fn counting_statements() {
    let t = example();
    assert_eq!(
        t.check_duplicates("age"),
        "SELECT age, COUNT(*) FROM test_keyspace.test_table \
         GROUP BY age HAVING COUNT(*) > 1"
    );
    assert_eq!(t.count_rows(), "SELECT COUNT(*) FROM test_keyspace.test_table");
    assert_eq!(t.truncate_table(), "TRUNCATE TABLE test_keyspace.test_table");
}

#[test]
fn duplicate_decision() {
    assert!(!duplicates_found(0));
    assert!(!duplicates_found(1));
    assert!(duplicates_found(2));
}
