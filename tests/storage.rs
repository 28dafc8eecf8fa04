use ic_stable_structures::memory_manager::{MemoryId, MemoryManager};
use ic_stable_structures::{DefaultMemoryImpl, StableBTreeMap};
use toolkit_utils::api_error::ApiErrorType;
use toolkit_utils::storage::{
    ByteMap, StableStorage, Storage, StorageInsertable, StorageInsertableByKey, StorageQueryable,
    StorageUpdateable,
};

fn fresh(name: &str) -> StableStorage {
    let manager = MemoryManager::init(DefaultMemoryImpl::default());
    let memory = manager.get(MemoryId::new(0));
    StableStorage::from_map(name, ByteMap { map: StableBTreeMap::new(memory) })
}

#[test]
fn insert_then_get_returns_value() {
    let mut s = fresh("users");
    let (key, value) = s.insert(vec![1, 2, 3]).unwrap();
    assert_eq!(value, vec![1, 2, 3]);
    let (k, v) = s.get(key).unwrap();
    assert_eq!(k, key);
    assert_eq!(v, vec![1, 2, 3]);
}

#[test]
fn absent_key_is_not_found_everywhere() {
    let mut s = fresh("users");
    s.insert(vec![9]).unwrap();
    let err = s.get(42).unwrap_err();
    assert!(matches!(err.error_type(), ApiErrorType::NotFound));
    assert_eq!(err.method_name(), Some("get"));
    assert_eq!(err.source(), Some("toolkit_utils"));
    assert_eq!(err.info().unwrap(), &vec!["users".to_string(), "storage".to_string()]);
    assert!(!s.remove(42));
    let err = s.update(42, vec![1]).unwrap_err();
    assert!(matches!(err.error_type(), ApiErrorType::NotFound));
    assert_eq!(err.message(), "Key does not exist");
    assert_eq!(err.method_name(), Some("update"));
}

#[test]
fn insert_by_key_twice_is_duplicate() {
    let mut s = fresh("items");
    assert_eq!(s.insert_by_key(7, vec![1]).unwrap(), (7, vec![1]));
    let err = s.insert_by_key(7, vec![2]).unwrap_err();
    assert!(matches!(err.error_type(), ApiErrorType::Duplicate));
    assert_eq!(err.message(), "Key already exists");
    assert_eq!(s.get(7).unwrap().1, vec![1]);
}

#[test]
fn upsert_twice_keeps_second_value() {
    let mut s = fresh("items");
    assert_eq!(s.upsert_by_key(5, vec![1]), (5, vec![1]));
    assert_eq!(s.upsert_by_key(5, vec![2]), (5, vec![2]));
    assert_eq!(s.get(5).unwrap().1, vec![2]);
    assert_eq!(s.get_all().len(), 1);
}

#[test]
fn auto_increment_keys_run_from_one() {
    let mut s = fresh("items");
    for n in 1..=5u64 {
        let (key, _) = s.insert(vec![(n * 3) as u8]).unwrap();
        assert_eq!(key, n);
    }
    let keys: Vec<u64> = s.get_all().into_iter().map(|e| e.0).collect();
    assert_eq!(keys, vec![1, 2, 3, 4, 5]);
}

#[test]
fn removed_key_is_not_reused_once_passed() {
    let mut s = fresh("items");
    let (first, _) = s.insert(vec![1]).unwrap();
    let (second, _) = s.insert(vec![2]).unwrap();
    assert!(s.remove(first));
    assert!(s.get(first).is_err());
    let (third, _) = s.insert(vec![3]).unwrap();
    assert_eq!(third, second + 1);
    assert_ne!(third, first);
}

#[test]
fn removing_the_largest_key_lets_it_be_taken_again() {
    let mut s = fresh("items");
    let (first, _) = s.insert(vec![1]).unwrap();
    assert!(s.remove(first));
    let (again, _) = s.insert(vec![2]).unwrap();
    assert_eq!(again, first);
}

#[test]
fn insert_after_explicit_keys_uses_largest_plus_one() {
    let mut s = fresh("items");
    s.insert_by_key(10, vec![1]).unwrap();
    s.insert_by_key(4, vec![1]).unwrap();
    assert_eq!(s.insert(vec![2]).unwrap().0, 11);
}

#[test]
fn get_many_keeps_request_order_and_skips_missing() {
    let mut s = fresh("items");
    s.insert_by_key(1, vec![10]).unwrap();
    s.insert_by_key(3, vec![30]).unwrap();
    let r = s.get_many(vec![3, 2, 1, 3]);
    assert_eq!(r, vec![(3, vec![30]), (1, vec![10]), (3, vec![30])]);
    assert!(s.get_many(vec![]).is_empty());
}

#[test]
fn get_all_is_in_key_order() {
    let mut s = fresh("items");
    s.insert_by_key(9, vec![9]).unwrap();
    s.insert_by_key(2, vec![2]).unwrap();
    s.insert_by_key(5, vec![5]).unwrap();
    assert_eq!(s.get_all(), vec![(2, vec![2]), (5, vec![5]), (9, vec![9])]);
    assert!(fresh("empty").get_all().is_empty());
}

#[test]
fn find_returns_first_match_in_key_order() {
    let mut s = fresh("items");
    s.insert_by_key(8, vec![1]).unwrap();
    s.insert_by_key(3, vec![1]).unwrap();
    s.insert_by_key(5, vec![2]).unwrap();
    assert_eq!(s.find(|_, v| v[0] == 1), Some((3, vec![1])));
    assert_eq!(s.find(|_, v| v[0] == 7), None);
}

#[test]
fn filter_returns_all_matches_in_key_order() {
    let mut s = fresh("items");
    for k in 1..=6u64 {
        s.insert_by_key(k, vec![(k % 2) as u8]).unwrap();
    }
    let odd: Vec<u64> = s.filter(|_, v| v[0] == 1).into_iter().map(|e| e.0).collect();
    assert_eq!(odd, vec![1, 3, 5]);
    assert!(s.filter(|k, _| *k > 100).is_empty());
}

#[test]
fn update_replaces_existing_value() {
    let mut s = fresh("items");
    s.insert_by_key(1, vec![1]).unwrap();
    assert_eq!(s.update(1, vec![2]).unwrap(), (1, vec![2]));
    assert_eq!(s.get(1).unwrap().1, vec![2]);
}

#[test]
fn remove_many_drops_present_keys() {
    let mut s = fresh("items");
    for k in 1..=4u64 {
        s.insert_by_key(k, vec![k as u8]).unwrap();
    }
    s.remove_many(vec![2, 4, 99]);
    let keys: Vec<u64> = s.get_all().into_iter().map(|e| e.0).collect();
    assert_eq!(keys, vec![1, 3]);
}

#[test]
fn storage_name_is_kept() {
    assert_eq!(fresh("projects").name(), "projects");
}
