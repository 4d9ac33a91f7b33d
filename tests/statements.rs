use eightfish::schema::{FieldKind, ModelSchema, SchemaError};

fn decl(pairs: &[(&str, &str)]) -> Option<Vec<(String, String)>> {
    Some(pairs.iter().map(|(n, t)| (n.to_string(), t.to_string())).collect())
}

fn person() -> ModelSchema {
    ModelSchema::extract(
        "Person".to_string(),
        decl(&[("id", "String"), ("name", "String"), ("age", "i64")]),
    )
    .unwrap()
}

#[test]
fn extract_keeps_declaration_order() {
    let s = person();
    assert_eq!(s.fields.len(), 3);
    assert_eq!(s.fields[0].name, "id");
    assert_eq!(s.fields[1].name, "name");
    assert_eq!(s.fields[2].name, "age");
    assert_eq!(s.fields[2].kind, FieldKind::Int64);
    assert_eq!(s.fields[0].kind, FieldKind::Str);
}

#[test]
fn extract_maps_every_primitive_kind() {
    let s = ModelSchema::extract(
        "All".to_string(),
        decl(&[
            ("a", "bool"),
            ("b", "i8"),
            ("c", "i16"),
            ("d", "i32"),
            ("e", "u8"),
            ("f", "u16"),
            ("g", "u32"),
            ("h", "u64"),
            ("i", "Vec < u8 >"),
        ]),
    )
    .unwrap();
    let kinds: Vec<FieldKind> = s.fields.iter().map(|f| f.kind).collect();
    assert_eq!(
        kinds,
        vec![
            FieldKind::Boolean,
            FieldKind::Int8,
            FieldKind::Int16,
            FieldKind::Int32,
            FieldKind::Uint8,
            FieldKind::Uint16,
            FieldKind::Uint32,
            FieldKind::Uint64,
            FieldKind::Binary
        ]
    );
}

#[test]
fn unsupported_field_type_fails_generation() {
    let r = ModelSchema::extract(
        "Order".to_string(),
        decl(&[("id", "String"), ("owner", "Person"), ("note", "Address")]),
    );
    assert_eq!(r.unwrap_err(), SchemaError::UnsupportedType { index: 1 });
}

#[test]
fn type_without_named_fields_fails_generation() {
    let r = ModelSchema::extract("Pair".to_string(), None);
    assert_eq!(r.unwrap_err(), SchemaError::NotNamedStruct);
}

#[test]
fn table_name_is_lowercase_type_name() {
    assert_eq!(person().model_name(), "person");
}

#[test]
fn field_names_and_placeholders() {
    let s = person();
    assert_eq!(s.field_names(), "id, name, age");
    assert_eq!(s.row_placeholders(), "$1, $2, $3");
    assert_eq!(s.update_placeholders(), "id = $1, name = $2, age = $3");
}

#[test]
fn placeholders_have_one_entry_per_field() {
    let names: Vec<String> = (0..12).map(|i| format!("f{}", i)).collect();
    let pairs: Vec<(String, String)> = names.iter().map(|n| (n.clone(), "bool".to_string())).collect();
    let s = ModelSchema::extract("Wide".to_string(), Some(pairs)).unwrap();
    let ph = s.row_placeholders();
    let entries: Vec<&str> = ph.split(", ").collect();
    assert_eq!(entries.len(), 12);
    for (i, e) in entries.iter().enumerate() {
        assert_eq!(*e, format!("${}", i + 1));
    }
    let cols = s.field_names();
    let cols: Vec<&str> = cols.split(", ").collect();
    assert_eq!(cols, names.iter().map(|n| n.as_str()).collect::<Vec<_>>());
}

#[test]
fn empty_record_type_has_empty_lists() {
    let s = ModelSchema::extract("Empty".to_string(), Some(vec![])).unwrap();
    assert_eq!(s.field_names(), "");
    assert_eq!(s.row_placeholders(), "");
    assert_eq!(s.update_placeholders(), "");
}

#[test]
fn get_one_statement() {
    assert_eq!(person().build_get_one_sql(), "SELECT id, name, age FROM person WHERE id = $1");
}

#[test]
fn get_list_with_limit_only() {
    assert_eq!(
        person().build_get_list_sql(Some(5), None),
        "SELECT id, name, age FROM person LIMIT 5"
    );
}

#[test]
fn get_list_with_limit_and_offset() {
    assert_eq!(
        person().build_get_list_sql(Some(5), Some(10)),
        "SELECT id, name, age FROM person LIMIT 5 OFFSET 10"
    );
}

#[test]
fn get_list_offset_without_limit_is_ignored() {
    assert_eq!(
        person().build_get_list_sql(None, Some(10)),
        "SELECT id, name, age FROM person"
    );
    assert_eq!(person().build_get_list_sql(None, None), "SELECT id, name, age FROM person");
}

#[test]
fn get_list_largest_limit() {
    assert_eq!(
        person().build_get_list_sql(Some(u64::MAX), Some(0)),
        "SELECT id, name, age FROM person LIMIT 18446744073709551615 OFFSET 0"
    );
}

#[test]
fn insert_statement() {
    assert_eq!(
        person().build_insert_sql(),
        "INSERT INTO person(id, name, age) VALUES ($1, $2, $3)"
    );
}

#[test]
fn update_statement_numbers_set_clause_from_one() {
    assert_eq!(
        person().build_update_sql(),
        "UPDATE person SET id = $1, name = $2, age = $3 WHERE id = $1"
    );
}

#[test]
fn update_statement_when_id_is_not_first() {
    // The SET clause numbers from $1 over all fields, so the WHERE clause's $1
    // names the first field's parameter, which is not the id here.
    let s = ModelSchema::extract(
        "Tag".to_string(),
        decl(&[("name", "String"), ("id", "String")]),
    )
    .unwrap();
    assert_eq!(s.build_update_sql(), "UPDATE tag SET name = $1, id = $2 WHERE id = $1");
}

#[test]
fn delete_statement() {
    assert_eq!(person().build_delete_sql(), "DELETE FROM person WHERE id = $1");
}
