use eightfish::response::{EightFishResponse, Info, ResponseError, Status};
use eightfish::schema::ModelSchema;
use eightfish::value::{build_delete_params, build_get_one_params, DecodeError, ParameterValue, Record};

fn person() -> ModelSchema {
    ModelSchema::extract(
        "Person".to_string(),
        Some(vec![
            ("id".to_string(), "String".to_string()),
            ("name".to_string(), "String".to_string()),
            ("age".to_string(), "i64".to_string()),
            ("active".to_string(), "bool".to_string()),
        ]),
    )
    .unwrap()
}

fn alice() -> Record {
    Record {
        values: vec![
            ParameterValue::Str("a1".to_string()),
            ParameterValue::Str("Alice".to_string()),
            ParameterValue::Int64(30),
            ParameterValue::Boolean(true),
        ],
    }
}

#[test]
fn insert_params_follow_field_order() {
    let s = person();
    let p = s.build_insert_params(&alice());
    assert_eq!(p, alice().values);
    assert_eq!(s.build_update_params(&alice()), alice().values);
}

#[test]
fn round_trip_through_a_row() {
    let s = person();
    let row = s.build_insert_params(&alice());
    assert_eq!(s.from_row(row).unwrap(), alice());
}

#[test]
fn from_row_ignores_extra_entries() {
    let s = person();
    let mut row = alice().values;
    row.push(ParameterValue::DbNull);
    assert_eq!(s.from_row(row).unwrap(), alice());
}

#[test]
fn from_row_short_row() {
    let s = person();
    let row = vec![ParameterValue::Str("a1".to_string()), ParameterValue::Str("Alice".to_string())];
    assert_eq!(s.from_row(row).unwrap_err(), DecodeError::ShortRow { expected: 4, found: 2 });
}

#[test]
fn from_row_type_mismatch() {
    let s = person();
    let mut row = alice().values;
    row[2] = ParameterValue::Int32(30);
    assert_eq!(s.from_row(row).unwrap_err(), DecodeError::TypeMismatch { index: 2 });
}

#[test]
fn from_row_null_is_a_mismatch() {
    let s = person();
    let mut row = alice().values;
    row[1] = ParameterValue::DbNull;
    assert_eq!(s.from_row(row).unwrap_err(), DecodeError::TypeMismatch { index: 1 });
}

#[test]
fn check_record_tests_kinds_and_length() {
    let s = person();
    assert!(s.check_record(&alice().values));
    let mut bad = alice().values;
    bad[3] = ParameterValue::Uint8(1);
    assert!(!s.check_record(&bad));
    bad.pop();
    assert!(!s.check_record(&bad));
}

#[test]
fn id_params_are_one_text_value() {
    assert_eq!(build_get_one_params("x9"), vec![ParameterValue::Str("x9".to_string())]);
    assert_eq!(build_delete_params("x9"), vec![ParameterValue::Str("x9".to_string())]);
    let (sql, params) = person().build_delete_sql_and_params("x9");
    assert_eq!(sql, "DELETE FROM person WHERE id = $1");
    assert_eq!(params, vec![ParameterValue::Str("x9".to_string())]);
    let (sql, params) = person().build_get_one_sql_and_params("x9");
    assert_eq!(sql, "SELECT id, name, age, active FROM person WHERE id = $1");
    assert_eq!(params, vec![ParameterValue::Str("x9".to_string())]);
}

#[test]
fn statement_and_params_pairs() {
    let s = person();
    let (sql, params) = s.build_insert_sql_and_params(&alice());
    assert_eq!(sql, "INSERT INTO person(id, name, age, active) VALUES ($1, $2, $3, $4)");
    assert_eq!(params, alice().values);
    let (sql, params) = s.build_update_sql_and_params(&alice());
    assert_eq!(
        sql,
        "UPDATE person SET id = $1, name = $2, age = $3, active = $4 WHERE id = $1"
    );
    assert_eq!(params, alice().values);
}

#[test]
fn id_is_the_id_field() {
    let s = person();
    assert_eq!(s.id(&alice()), Some("a1".to_string()));
    let other = ModelSchema::extract(
        "Note".to_string(),
        Some(vec![("body".to_string(), "String".to_string())]),
    )
    .unwrap();
    let rec = Record { values: vec![ParameterValue::Str("hi".to_string())] };
    assert_eq!(other.id(&rec), None);
}

#[test]
fn record_json_text() {
    let s = ModelSchema::extract(
        "Blob".to_string(),
        Some(vec![
            ("id".to_string(), "String".to_string()),
            ("n".to_string(), "i8".to_string()),
            ("data".to_string(), "Vec<u8>".to_string()),
            ("ok".to_string(), "bool".to_string()),
        ]),
    )
    .unwrap();
    let rec = Record {
        values: vec![
            ParameterValue::Str("say \"hi\"".to_string()),
            ParameterValue::Int8(-128),
            ParameterValue::Binary(vec![0, 7, 255]),
            ParameterValue::Boolean(false),
        ],
    };
    assert_eq!(
        s.record_json(&rec),
        "{\"id\":\"say \\\"hi\\\"\",\"n\":-128,\"data\":[0,7,255],\"ok\":false}"
    );
}

#[test]
fn hash_is_stable_and_tracks_changes() {
    let s = person();
    let h1 = s.calc_hash(&alice()).unwrap();
    let h2 = s.calc_hash(&alice()).unwrap();
    assert_eq!(h1, h2);
    assert!(!h1.is_empty());
    assert_ne!(h1, s.record_json(&alice()));
    let mut changed = alice();
    changed.values[2] = ParameterValue::Int64(31);
    assert_ne!(s.calc_hash(&changed).unwrap(), h1);
    let mut renamed = alice();
    renamed.values[1] = ParameterValue::Str("Alicia".to_string());
    assert_ne!(s.calc_hash(&renamed).unwrap(), h1);
}

#[test]
fn hash_normalizes_accented_text() {
    let s = person();
    let mut composed = alice();
    // U+00E9 is a precomposed accent; "e" followed by U+0301 is its NFKD form.
    composed.values[1] = ParameterValue::Str("Ren\u{e9}".to_string());
    let mut decomposed = alice();
    decomposed.values[1] = ParameterValue::Str("Rene\u{301}".to_string());
    let h = s.calc_hash(&composed).unwrap();
    assert_eq!(h, s.calc_hash(&decomposed).unwrap());
    assert_ne!(h, s.calc_hash(&alice()).unwrap());
}

#[test]
fn record_json_escapes_control_characters() {
    let s = ModelSchema::extract(
        "Note".to_string(),
        Some(vec![("body".to_string(), "String".to_string())]),
    )
    .unwrap();
    let rec = Record { values: vec![ParameterValue::Str("a\u{1}\t\\b\n".to_string())] };
    assert_eq!(s.record_json(&rec), "{\"body\":\"a\\u0001\\t\\\\b\\n\"}");
}

fn info() -> Info {
    Info {
        model_name: "person".to_string(),
        action: "list".to_string(),
        target: String::new(),
        extra: String::new(),
    }
}

#[test]
fn response_without_records() {
    let r = EightFishResponse::new(Status::Successful, info(), &person(), &vec![], "[]".to_string())
        .unwrap();
    assert!(r.pair_list().is_none());
    assert!(r.results().is_none());
    assert_eq!(r.status(), Status::Successful);
}

#[test]
fn response_with_records() {
    let s = person();
    let mut bob = alice();
    bob.values[0] = ParameterValue::Str("b2".to_string());
    let recs = vec![alice(), bob.clone()];
    let mut r =
        EightFishResponse::new(Status::Successful, info(), &s, &recs, "[..]".to_string()).unwrap();
    let pairs = r.pair_list().clone().unwrap();
    assert_eq!(pairs.len(), 2);
    assert_eq!(pairs[0], ("a1".to_string(), s.calc_hash(&alice()).unwrap()));
    assert_eq!(pairs[1], ("b2".to_string(), s.calc_hash(&bob).unwrap()));
    assert_eq!(r.results(), &Some("[..]".to_string()));
    r.set_status(Status::Failed);
    assert_eq!(r.status(), Status::Failed);
    r.set_results(None);
    assert!(r.results().is_none());
    assert_eq!(r.info().action, "list");
}

#[test]
fn response_record_without_id() {
    let s = ModelSchema::extract(
        "Note".to_string(),
        Some(vec![("body".to_string(), "String".to_string())]),
    )
    .unwrap();
    let recs = vec![Record { values: vec![ParameterValue::Str("hi".to_string())] }];
    let r = EightFishResponse::new(Status::Successful, info(), &s, &recs, "x".to_string());
    assert_eq!(r.unwrap_err(), ResponseError::MissingId { index: 0 });
}
