use scylladb_rs::query_builder::InsertOptions;
use scylladb_rs::query_builder::Operations;
use scylladb_rs::query_builder::OrderDirection;
use scylladb_rs::query_builder::QueryBuilder;

#[test]
fn select_with_columns_and_condition() {
    let q = QueryBuilder::new(Operations::Select, "ks", "users")
        .select(&["name", "age"])
        .eq("id", "7")
        .build();
    assert_eq!(q, "SELECT name, age FROM ks.users WHERE id = '7';");
}

#[test]
fn select_without_columns_projects_star() {
    let q = QueryBuilder::new(Operations::Select, "ks", "users").build();
    assert_eq!(q, "SELECT * FROM ks.users;");
}

#[test]
fn delete_has_no_projection() {
    let q = QueryBuilder::new(Operations::Delete, "ks", "users").build();
    assert_eq!(q, "DELETE FROM ks.users;");
}

#[test]
fn delete_with_condition() {
    let q = QueryBuilder::new(Operations::Delete, "ks", "users").eq("id", "7").build();
    assert_eq!(q, "DELETE FROM ks.users WHERE id = '7';");
}

#[test]
fn update_with_assignment_and_condition() {
    let q = QueryBuilder::new(Operations::Update, "ks", "users")
        .update(&[("age", "30")])
        .eq("id", "1")
        .build();
    assert_eq!(q, "UPDATE ks.users SET age = '30' WHERE id = '1';");
}

#[test]
fn update_retags_the_operation() {
    let q = QueryBuilder::new(Operations::Select, "ks", "users")
        .update(&[("email", "new_email@example.com"), ("age", "30")])
        .eq("user_id", "12345")
        .gt("age", "20")
        .build();
    assert_eq!(
        q,
        "UPDATE ks.users SET email = 'new_email@example.com', age = '30' \
         WHERE user_id = '12345' AND age > '20';"
    );
}

#[test]
fn update_without_assignments_has_no_set() {
    let q = QueryBuilder::new(Operations::Update, "ks", "users").build();
    assert_eq!(q, "UPDATE ks.users;");
}

#[test]
fn conditions_keep_call_order() {
    let q = QueryBuilder::new(Operations::Select, "ks", "t")
        .eq("a", "1")
        .gt("b", "2")
        .lte("c", "3")
        .build();
    assert_eq!(q, "SELECT * FROM ks.t WHERE a = '1' AND b > '2' AND c <= '3';");
}

#[test]
fn every_comparison_operator() {
    let base = || QueryBuilder::new(Operations::Select, "ks", "t");
    assert_eq!(base().neq("a", "1").build(), "SELECT * FROM ks.t WHERE a != '1';");
    assert_eq!(base().gte("a", "1").build(), "SELECT * FROM ks.t WHERE a >= '1';");
    assert_eq!(base().lt("a", "1").build(), "SELECT * FROM ks.t WHERE a < '1';");
    assert_eq!(base().like("a", "x%").build(), "SELECT * FROM ks.t WHERE a LIKE 'x%';");
}

#[test]
fn list_and_range_and_null_predicates() {
    let base = || QueryBuilder::new(Operations::Select, "ks", "t");
    assert_eq!(
        base().in_list("a", &["1", "2", "3"]).build(),
        "SELECT * FROM ks.t WHERE a IN (1, 2, 3);"
    );
    assert_eq!(
        base().not_in_list("a", &["1", "2"]).build(),
        "SELECT * FROM ks.t WHERE a NOT IN (1, 2);"
    );
    assert_eq!(
        base().between("a", "1", "9").build(),
        "SELECT * FROM ks.t WHERE a BETWEEN '1' AND '9';"
    );
    assert_eq!(
        base().not_between("a", "1", "9").build(),
        "SELECT * FROM ks.t WHERE a NOT BETWEEN '1' AND '9';"
    );
    assert_eq!(base().is_null("a").build(), "SELECT * FROM ks.t WHERE a IS NULL;");
    assert_eq!(base().is_not_null("a").build(), "SELECT * FROM ks.t WHERE a IS NOT NULL;");
}

#[test]
fn raw_condition_passes_through() {
    let q = QueryBuilder::new(Operations::Select, "ks", "t")
        .where_condition("token(a) > token(b)")
        .build();
    assert_eq!(q, "SELECT * FROM ks.t WHERE token(a) > token(b);");
}

#[test]
fn free_form_clause_appends_verbatim() {
    let q = QueryBuilder::new(Operations::Select, "ks", "t")
        .eq("a", "1")
        .clause("ALLOW FILTERING")
        .build();
    assert_eq!(q, "SELECT * FROM ks.t WHERE a = '1' ALLOW FILTERING;");
}

#[test]
fn clause_with_json_prefix_is_misrouted() {
    // The JSON-insert path is told apart by a literal prefix check alone, so
    // a hand-written clause opening with the same four characters is taken
    // for it and dropped from a Select's trailing clauses.
    let q = QueryBuilder::new(Operations::Select, "ks", "t").clause("JSONISH").build();
    assert_eq!(q, "SELECT * FROM ks.t;");
}

#[test]
fn order_by_sits_between_where_and_using() {
    let q = QueryBuilder::new(Operations::Select, "ks", "users")
        .eq("id", "7")
        .order_by("x", OrderDirection::Desc)
        .insert_option(InsertOptions::UsingTTL(300))
        .build();
    assert_eq!(q, "SELECT * FROM ks.users WHERE id = '7' ORDER BY x DESC USING TTL 300;");
    assert_eq!(q.matches("ORDER BY x DESC").count(), 1);
}

#[test]
fn order_by_ascending() {
    let q = QueryBuilder::new(Operations::Select, "ks", "t")
        .order_by("x", OrderDirection::Asc)
        .build();
    assert_eq!(q, "SELECT * FROM ks.t ORDER BY x ASC;");
}

#[test]
fn insert_options_keep_call_order() {
    let q = QueryBuilder::new(Operations::Insert, "ks", "t")
        .insert_option(InsertOptions::UsingTTL(300))
        .insert_option(InsertOptions::UsingTimestamp(42))
        .build();
    assert_eq!(q, "INSERT INTO ks.t USING TTL 300 AND TIMESTAMP 42;");
}

#[test]
fn insert_option_extreme_values() {
    let q = QueryBuilder::new(Operations::Insert, "ks", "t")
        .insert_option(InsertOptions::UsingTimestamp(i64::MIN))
        .insert_option(InsertOptions::UsingTTL(0))
        .build();
    assert_eq!(q, "INSERT INTO ks.t USING TIMESTAMP -9223372036854775808 AND TTL 0;");
}

#[test]
fn plain_insert_heads() {
    let q = QueryBuilder::new(Operations::Insert, "ks", "t").build();
    assert_eq!(q, "INSERT INTO ks.t;");
    let q = QueryBuilder::new(Operations::InsertIfNotExists, "ks", "t").build();
    assert_eq!(q, "INSERT IF NOT EXISTS ks.t;");
}

#[test]
fn delete_call_retags_the_builder() {
    let q = QueryBuilder::new(Operations::Select, "ks", "users").delete().eq("id", "7").build();
    assert_eq!(q, "DELETE FROM ks.users WHERE id = '7';");
}

#[test]
fn build_is_idempotent() {
    let b = QueryBuilder::new(Operations::Select, "ks", "users")
        .select(&["name"])
        .eq("id", "7")
        .order_by("name", OrderDirection::Asc);
    let first = b.build();
    let second = b.build();
    assert_eq!(first, second);
}
