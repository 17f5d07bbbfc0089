use scylladb_rs::query_builder::Operations;
use scylladb_rs::query_builder::QueryBuilder;

fn record(age: i64, name: &str, score: f64) -> serde_json::Value {
    let mut map = serde_json::Map::new();
    map.insert("age".to_string(), serde_json::Value::from(age));
    map.insert("name".to_string(), serde_json::Value::from(name));
    map.insert("score".to_string(), serde_json::Value::from(score));
    serde_json::Value::Object(map)
}

#[test]
fn bulk_insert_renders_one_statement() {
    let body = serde_json::Value::Array(vec![
        record(33, "Johnny Doe the first", 100.0),
        record(22, "Johnny Doe the second", 88.5),
    ]);
    let statement = QueryBuilder::new(Operations::Select, "test_keyspace", "test_table")
        .insert(&body);
    assert_eq!(
        statement,
        "INSERT INTO test_keyspace.test_table JSON \
         '[{\"age\":33,\"name\":\"Johnny Doe the first\",\"score\":100.0},\
         {\"age\":22,\"name\":\"Johnny Doe the second\",\"score\":88.5}]';"
    );
}

#[test]
fn insert_serializes_a_single_document() {
    let mut map = serde_json::Map::new();
    map.insert("age".to_string(), serde_json::Value::from(30));
    let statement =
        QueryBuilder::new(Operations::Select, "ks", "users").insert(&serde_json::Value::Object(map));
    assert_eq!(statement, "INSERT INTO ks.users JSON '{\"age\":30}';");
}

#[test]
fn insert_keeps_conditions_and_options() {
    let statement = QueryBuilder::new(Operations::Select, "ks", "users")
        .eq("id", "7")
        .insert(&serde_json::Value::Null);
    assert_eq!(statement, "INSERT INTO ks.users JSON 'null' WHERE id = '7';");
}
