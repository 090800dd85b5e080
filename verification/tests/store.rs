use wasm_icq_invoker::msg::Coin;
use wasm_icq_invoker::state::ResponseStore;
use wasm_icq_invoker::store::SequenceMap;

fn coin(amount: u128) -> Coin {
    Coin { denom: "uosmo".to_string(), amount }
}

#[test]
fn new_map_is_empty() {
    let map: SequenceMap<String> = SequenceMap::new();
    assert!(map.entries().is_empty());
    assert_eq!(map.get(0), None);
}

#[test]
fn put_inserts_in_key_order() {
    let mut map: SequenceMap<u8> = SequenceMap::new();
    for key in [5u64, 1, 9, 3, 7, 0, u64::MAX, 4] {
        map.put(key, (key % 200) as u8);
    }
    let keys: Vec<u64> = map.entries().iter().map(|e| e.0).collect();
    assert_eq!(keys, vec![0, 1, 3, 4, 5, 7, 9, u64::MAX]);
    assert_eq!(map.get(4), Some(&4));
    assert_eq!(map.get(u64::MAX), Some(&((u64::MAX % 200) as u8)));
    assert_eq!(map.get(2), None);
    assert_eq!(map.get(6), None);
}

#[test]
fn put_replaces_what_was_there() {
    let mut map: SequenceMap<String> = SequenceMap::new();
    map.put(3, "a".to_string());
    map.put(1, "b".to_string());
    map.put(3, "c".to_string());
    assert_eq!(map.entries(), &vec![(1u64, "b".to_string()), (3, "c".to_string())]);
}

#[test]
fn results_and_errors_are_kept_apart() {
    let mut store = ResponseStore::new();
    store.put_result(7, coin(500));
    store.put_error(9, "remote module not found".to_string());
    store.put_error(7, "late".to_string());
    assert_eq!(store.list_results(), &vec![(7u64, coin(500))]);
    assert_eq!(
        store.list_errors(),
        &vec![(7u64, "late".to_string()), (9, "remote module not found".to_string())]
    );
    assert_eq!(store.result(7), Some(&coin(500)));
    assert_eq!(store.result(9), None);
    assert_eq!(store.error(9), Some(&"remote module not found".to_string()));
    assert_eq!(store.error(8), None);
}

#[test]
fn putting_the_same_result_twice_is_as_once() {
    let mut once = ResponseStore::new();
    once.put_result(2, coin(1));
    once.put_result(7, coin(500));
    let mut twice = ResponseStore::new();
    twice.put_result(2, coin(1));
    twice.put_result(7, coin(500));
    twice.put_result(7, coin(500));
    assert_eq!(once.list_results(), twice.list_results());
    assert_eq!(once.list_errors(), twice.list_errors());
}
