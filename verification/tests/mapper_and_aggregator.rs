use plantdb::aggregator::aggregate;
use plantdb::records::{DbError, JoinedRow};
use plantdb::row_mapper::{map_joined_row, map_joined_rows, map_user_row, map_user_rows};
use plantdb::values::SqlValue;

fn user_row(id: i64, name: &str, email: &str) -> Vec<SqlValue> {
    vec![
        SqlValue::Int(id),
        SqlValue::Text(name.to_string()),
        SqlValue::Text(email.to_string()),
    ]
}

fn joined_row(id: i32, name: &str, email: &str, species: Option<&str>) -> JoinedRow {
    JoinedRow {
        id,
        name: name.to_string(),
        email: email.to_string(),
        species: species.map(|s| s.to_string()),
    }
}

#[test]
fn user_row_decodes_field_for_field() {
    let u = map_user_row(&user_row(7, "Nia", "n@x.com")).unwrap();
    assert_eq!(u.id, 7);
    assert_eq!(u.name, "Nia");
    assert_eq!(u.email, "n@x.com");
}

#[test]
fn short_row_is_a_decode_error() {
    let row = vec![SqlValue::Int(7), SqlValue::Text("Nia".to_string())];
    assert_eq!(map_user_row(&row), Err(DbError::DecodeError));
}

#[test]
fn null_where_text_is_expected_is_a_decode_error() {
    let row = vec![
        SqlValue::Int(7),
        SqlValue::Null,
        SqlValue::Text("n@x.com".to_string()),
    ];
    assert_eq!(map_user_row(&row), Err(DbError::DecodeError));
}

#[test]
fn value_of_rejected_kind_is_a_decode_error() {
    let row = vec![
        SqlValue::Other,
        SqlValue::Text("Nia".to_string()),
        SqlValue::Text("n@x.com".to_string()),
    ];
    assert_eq!(map_user_row(&row), Err(DbError::DecodeError));
}

#[test]
fn identifier_out_of_range_is_a_decode_error() {
    assert_eq!(
        map_user_row(&user_row(3_000_000_000, "Nia", "n@x.com")),
        Err(DbError::DecodeError)
    );
    assert_eq!(
        map_user_row(&user_row(-3_000_000_000, "Nia", "n@x.com")),
        Err(DbError::DecodeError)
    );
}

#[test]
fn user_rows_map_pointwise_in_order() {
    let rows = vec![user_row(1, "Alice", "a@x.com"), user_row(2, "Bob", "b@x.com")];
    let users = map_user_rows(&rows).unwrap();
    assert_eq!(users.len(), 2);
    assert_eq!(users[0].id, 1);
    assert_eq!(users[0].name, "Alice");
    assert_eq!(users[1].id, 2);
    assert_eq!(users[1].email, "b@x.com");
}

#[test]
fn one_bad_row_fails_the_whole_mapping() {
    let rows = vec![user_row(1, "Alice", "a@x.com"), vec![SqlValue::Null]];
    assert_eq!(map_user_rows(&rows), Err(DbError::DecodeError));
}

#[test]
fn joined_row_with_text_species_decodes() {
    let row = vec![
        SqlValue::Int(1),
        SqlValue::Text("Alice".to_string()),
        SqlValue::Text("a@x.com".to_string()),
        SqlValue::Text("Fern".to_string()),
    ];
    let j = map_joined_row(&row).unwrap();
    assert_eq!(j, joined_row(1, "Alice", "a@x.com", Some("Fern")));
}

#[test]
fn joined_row_with_null_species_decodes() {
    let row = vec![
        SqlValue::Int(1),
        SqlValue::Text("Alice".to_string()),
        SqlValue::Text("a@x.com".to_string()),
        SqlValue::Null,
    ];
    let j = map_joined_row(&row).unwrap();
    assert_eq!(j, joined_row(1, "Alice", "a@x.com", None));
}

#[test]
fn joined_row_with_integer_species_is_a_decode_error() {
    let row = vec![
        SqlValue::Int(1),
        SqlValue::Text("Alice".to_string()),
        SqlValue::Text("a@x.com".to_string()),
        SqlValue::Int(4),
    ];
    assert_eq!(map_joined_row(&row), Err(DbError::DecodeError));
}

#[test]
fn joined_rows_map_pointwise_in_order() {
    let raw = vec![
        vec![
            SqlValue::Int(1),
            SqlValue::Text("Alice".to_string()),
            SqlValue::Text("a@x.com".to_string()),
            SqlValue::Text("Fern".to_string()),
        ],
        vec![
            SqlValue::Int(1),
            SqlValue::Text("Alice".to_string()),
            SqlValue::Text("a@x.com".to_string()),
            SqlValue::Null,
        ],
    ];
    let js = map_joined_rows(&raw).unwrap();
    assert_eq!(js.len(), 2);
    assert_eq!(js[0].species.as_deref(), Some("Fern"));
    assert_eq!(js[1].species, None);
}

#[test]
fn aggregating_no_rows_is_not_found() {
    let rows: Vec<JoinedRow> = Vec::new();
    assert_eq!(aggregate(5, &rows), Err(DbError::NotFoundError));
}

#[test]
fn aggregating_one_null_species_row_gives_no_plants() {
    let rows = vec![joined_row(5, "Bob", "b@x.com", None)];
    let found = aggregate(5, &rows).unwrap();
    assert_eq!(found.user.id, 5);
    assert_eq!(found.user.name, "Bob");
    assert!(found.plants.is_empty());
}

#[test]
fn aggregating_keeps_every_species_in_arrival_order() {
    let rows = vec![
        joined_row(5, "Bob", "b@x.com", Some("Fern")),
        joined_row(5, "Bob", "b@x.com", Some("Ivy")),
        joined_row(5, "Bob", "b@x.com", Some("Oak")),
    ];
    let found = aggregate(5, &rows).unwrap();
    assert_eq!(found.plants.len(), 3);
    let species: Vec<&str> = found.plants.iter().map(|p| p.species.as_str()).collect();
    assert_eq!(species, vec!["Fern", "Ivy", "Oak"]);
    assert!(found.plants.iter().all(|p| p.user_id == 5));
}

#[test]
fn only_the_first_row_sets_the_parent() {
    let rows = vec![
        joined_row(5, "Bob", "b@x.com", None),
        joined_row(6, "Mallory", "m@x.com", Some("Ivy")),
    ];
    let found = aggregate(5, &rows).unwrap();
    assert_eq!(found.user.id, 5);
    assert_eq!(found.user.name, "Bob");
    assert_eq!(found.plants.len(), 1);
    assert_eq!(found.plants[0].species, "Ivy");
    assert_eq!(found.plants[0].user_id, 5);
}
