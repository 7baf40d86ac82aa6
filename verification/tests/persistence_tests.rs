use chat::keyed_map::KeyedMap;
use chat::persistence::crud_error::CRUDError;
use chat::persistence::simple_file_db::SimpleFileDB;
use chat::persistence::CRUD;

fn s(text: &str) -> String {
    text.to_string()
}

#[test]
fn keyed_map_insert_get_remove() {
    let mut m: KeyedMap<String, u32> = KeyedMap::new();
    assert_eq!(m.insert(s("a"), 1), None);
    assert_eq!(m.insert(s("b"), 2), None);
    assert_eq!(m.insert(s("a"), 3), Some(1));
    assert_eq!(m.get(&s("a")), Some(&3));
    assert_eq!(m.get(&s("b")), Some(&2));
    assert!(m.contains_key(&s("b")));
    assert_eq!(m.entries().len(), 2);
    assert_eq!(m.remove(&s("b")), Some(2));
    assert_eq!(m.remove(&s("b")), None);
    assert!(!m.contains_key(&s("b")));
    assert_eq!(m.get(&s("c")), None);
    assert_eq!(m.entries().len(), 1);
}

#[test]
fn new_store_is_empty_and_keeps_its_path() {
    let db: SimpleFileDB<String, u32> = SimpleFileDB::new(s("accounts.sdb"));
    assert_eq!(db.file_path(), "accounts.sdb");
    assert!(db.entries().is_empty());
    assert_eq!(db.read(&s("x")), Err(CRUDError::NotFound));
}

#[test]
fn create_then_read() {
    let mut db: SimpleFileDB<String, u32> = SimpleFileDB::new(s("f"));
    assert_eq!(db.create(s("k"), 7), Ok(()));
    assert_eq!(db.read(&s("k")), Ok(&7));
}

#[test]
fn create_of_existing_key_reports_and_replaces() {
    let mut db: SimpleFileDB<String, u32> = SimpleFileDB::new(s("f"));
    assert_eq!(db.create(s("k"), 7), Ok(()));
    assert_eq!(db.create(s("k"), 8), Err(CRUDError::AlreadyExists));
    assert_eq!(db.read(&s("k")), Ok(&8));
}

#[test]
fn update_needs_existing_key() {
    let mut db: SimpleFileDB<String, u32> = SimpleFileDB::new(s("f"));
    assert_eq!(db.update(s("k"), 1), Err(CRUDError::NotFound));
    assert_eq!(db.read(&s("k")), Err(CRUDError::NotFound));
    db.create(s("k"), 1).unwrap();
    assert_eq!(db.update(s("k"), 2), Ok(()));
    assert_eq!(db.read(&s("k")), Ok(&2));
}

#[test]
fn delete_returns_value_then_not_found() {
    let mut db: SimpleFileDB<String, u32> = SimpleFileDB::new(s("f"));
    db.create(s("k"), 5).unwrap();
    db.create(s("j"), 6).unwrap();
    assert_eq!(db.delete(&s("k")), Ok(5));
    assert_eq!(db.delete(&s("k")), Err(CRUDError::NotFound));
    assert_eq!(db.read(&s("k")), Err(CRUDError::NotFound));
    assert_eq!(db.read(&s("j")), Ok(&6));
}

#[test]
fn load_keeps_last_value_per_key() {
    let db: SimpleFileDB<String, u32> = SimpleFileDB::new(s("f"));
    let db = db.load_entries(vec![(s("a"), 1), (s("b"), 2), (s("a"), 3)]);
    assert_eq!(db.read(&s("a")), Ok(&3));
    assert_eq!(db.read(&s("b")), Ok(&2));
    assert_eq!(db.entries().len(), 2);
    assert_eq!(db.file_path(), "f");
}

#[test]
fn saved_entries_load_back() {
    let mut db: SimpleFileDB<String, u32> = SimpleFileDB::new(s("f"));
    db.create(s("a"), 1).unwrap();
    db.create(s("b"), 2).unwrap();
    db.create(s("c"), 3).unwrap();
    db.delete(&s("b")).unwrap();
    let saved: Vec<(String, u32)> = db.entries().iter().map(|(k, v)| (k.clone(), *v)).collect();
    let loaded: SimpleFileDB<String, u32> = SimpleFileDB::new(s("f")).load_entries(saved);
    assert_eq!(loaded.read(&s("a")), Ok(&1));
    assert_eq!(loaded.read(&s("b")), Err(CRUDError::NotFound));
    assert_eq!(loaded.read(&s("c")), Ok(&3));
    assert_eq!(loaded.entries().len(), 2);
}

#[test]
fn crud_error_texts() {
    assert_eq!(CRUDError::NotFound.to_string(), "could not find entry");
    assert_eq!(CRUDError::AlreadyExists.to_string(), "entry already exists");
}
