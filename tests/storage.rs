use codemelted::data::CError;
use codemelted::storage::{
    storage_clear, storage_get, storage_init, storage_length, storage_remove, storage_set,
};

#[test]
fn storage_round_trip() {
    let mut s = storage_init(None).ok().unwrap();
    assert_eq!(storage_length(&s), 0);
    let saved = storage_set(&mut s, "name", "codemelted");
    assert_eq!(saved, "{\"name\":\"codemelted\"}");
    assert_eq!(storage_get(&s, "name"), Some(String::from("codemelted")));
    assert_eq!(storage_get(&s, "other"), None);
    storage_set(&mut s, "name", "again");
    assert_eq!(storage_get(&s, "name"), Some(String::from("again")));
    assert_eq!(storage_length(&s), 1);
    storage_set(&mut s, "b", "2");
    assert_eq!(storage_length(&s), 2);
    let saved = storage_remove(&mut s, "name");
    assert_eq!(saved, "{\"b\":\"2\"}");
    assert_eq!(storage_get(&s, "name"), None);
    assert_eq!(storage_length(&s), 1);
    assert_eq!(storage_clear(&mut s), "");
    assert_eq!(storage_length(&s), 0);
}

#[test]
fn storage_loads_saved_text() {
    let s = storage_init(Some(String::from("{\"k\":\"v\",\"n\":\"1\"}"))).ok().unwrap();
    assert_eq!(storage_length(&s), 2);
    assert_eq!(storage_get(&s, "k"), Some(String::from("v")));
    let s = storage_init(Some(String::new())).ok().unwrap();
    assert_eq!(storage_length(&s), 0);
}

#[test]
fn storage_rejects_corrupt_text() {
    assert_eq!(storage_init(Some(String::from("{not json"))).err(), Some(CError::Corrupt));
    assert_eq!(storage_init(Some(String::from("[1, 2]"))).err(), Some(CError::Corrupt));
}

#[test]
fn storage_refuses_overlong_text() {
    let long = format!("{{\"k\":\"{}\"}}", "x".repeat(40000));
    assert_eq!(storage_init(Some(long)).err(), Some(CError::TooLong));
}
