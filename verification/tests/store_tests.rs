use secret_vault::error::SecretError;
use secret_vault::secrets::SavedSecret;
use secret_vault::store::SecretStore;

fn item(name: &str, value: &[u8]) -> SavedSecret {
    SavedSecret {
        secret_name: name.to_string(),
        encrypted_secret_value: value.to_vec(),
        version: 1,
    }
}

#[test]
fn save_batch_then_list_counts_and_versions() {
    let mut store = SecretStore::new();
    store.save_batch(&vec![item("n1", b"v1"), item("n2", b"v2")], 1);
    let (total, page) = store.list(1, 10);
    assert_eq!(total, 2);
    assert_eq!(page.len(), 2);
    assert!(page.iter().all(|s| s.version == 1));
    // Most recently created first.
    assert_eq!(page[0].secret_name, "n2");
    assert_eq!(page[1].secret_name, "n1");
}

#[test]
fn second_page_of_three_is_second_most_recent() {
    let mut store = SecretStore::new();
    store.save_batch(&vec![item("first", b"1")], 1);
    store.save_batch(&vec![item("second", b"2")], 2);
    store.save_batch(&vec![item("third", b"3")], 3);
    let (total, page) = store.list(2, 1);
    assert_eq!(total, 3);
    assert_eq!(page.len(), 1);
    assert_eq!(page[0].secret_name, "second");
}

#[test]
fn list_beyond_end_is_empty_with_full_count() {
    let mut store = SecretStore::new();
    store.save_batch(&vec![item("only", b"x")], 1);
    let (total, page) = store.list(5, 10);
    assert_eq!(total, 1);
    assert!(page.is_empty());
}

#[test]
fn get_by_id_finds_and_misses() {
    let mut store = SecretStore::new();
    store.save_batch(&vec![item("a", b"1"), item("b", b"2")], 1);
    let (_, page) = store.list(1, 10);
    let id = page[1].id;
    let found = store.get_by_id(id).expect("found");
    assert_eq!(found.secret_name, "a");
    assert_eq!(store.get_by_id(u128::MAX).unwrap_err(), SecretError::NotFound);
}

#[test]
fn edit_bumps_version_and_captures_history() {
    let mut store = SecretStore::new();
    store.save_batch(&vec![item("name", b"old-value")], 1);
    let (_, page) = store.list(1, 10);
    let id = page[0].id;
    let n = page[0].version;

    let r = store.edit(id, &"new".to_string(), &b"new-value".to_vec(), n, 2);
    assert_eq!(r, Ok(()));

    let live = store.get_by_id(id).expect("live");
    assert_eq!(live.version, n + 1);
    assert_eq!(live.secret_name, "new");
    assert_eq!(live.encrypted_secret_value, b"new-value".to_vec());

    let (hist_total, hist) = store.list_versions(id, 1, 10);
    assert_eq!(hist_total, 1);
    assert_eq!(hist.len(), 1);
    assert_eq!(hist[0].version, n);
    assert_eq!(hist[0].secret_name, "name");
    assert_eq!(hist[0].encrypted_secret_value, b"old-value".to_vec());
    assert_eq!(hist[0].secret_id, id);
}

#[test]
fn concurrent_edits_from_same_version_conflict() {
    let mut store = SecretStore::new();
    store.save_batch(&vec![item("name", b"value")], 1);
    let (_, page) = store.list(1, 10);
    let id = page[0].id;
    let n = page[0].version;

    // Both writers observed version n; the first commits.
    let first = store.edit(id, &"one".to_string(), &b"1".to_vec(), n, 2);
    assert_eq!(first, Ok(()));
    // The second still expects n and must observe a conflict.
    let second = store.edit(id, &"two".to_string(), &b"2".to_vec(), n, 3);
    assert_eq!(second, Err(SecretError::Conflict));

    // Exactly one history row is tagged n and the first edit was not lost.
    let (hist_total, hist) = store.list_versions(id, 1, 10);
    assert_eq!(hist_total, 1);
    assert_eq!(hist.iter().filter(|v| v.version == n).count(), 1);
    let live = store.get_by_id(id).expect("live");
    assert_eq!(live.secret_name, "one");
    assert_eq!(live.version, n + 1);
}

#[test]
fn edit_unknown_id_is_not_found() {
    let mut store = SecretStore::new();
    store.save_batch(&vec![item("a", b"1")], 1);
    let r = store.edit(12345678, &"x".to_string(), &b"y".to_vec(), 1, 2);
    assert_eq!(r, Err(SecretError::NotFound));
}

#[test]
fn history_pages_are_most_recent_first() {
    let mut store = SecretStore::new();
    store.save_batch(&vec![item("s", b"v0")], 1);
    let (_, page) = store.list(1, 10);
    let id = page[0].id;
    store.edit(id, &"s".to_string(), &b"v1".to_vec(), 1, 2).expect("edit 1");
    store.edit(id, &"s".to_string(), &b"v2".to_vec(), 2, 3).expect("edit 2");
    store.edit(id, &"s".to_string(), &b"v3".to_vec(), 3, 4).expect("edit 3");

    let (total, hist) = store.list_versions(id, 1, 2);
    assert_eq!(total, 3);
    assert_eq!(hist.len(), 2);
    assert_eq!(hist[0].version, 3);
    assert_eq!(hist[1].version, 2);

    let (_, second_page) = store.list_versions(id, 2, 2);
    assert_eq!(second_page.len(), 1);
    assert_eq!(second_page[0].version, 1);
}

#[test]
fn history_is_scoped_to_one_secret() {
    let mut store = SecretStore::new();
    store.save_batch(&vec![item("a", b"1"), item("b", b"2")], 1);
    let (_, page) = store.list(1, 10);
    let id_b = page[0].id;
    let id_a = page[1].id;
    store.edit(id_a, &"a".to_string(), &b"1x".to_vec(), 1, 2).expect("edit a");
    let (total_a, _) = store.list_versions(id_a, 1, 10);
    let (total_b, _) = store.list_versions(id_b, 1, 10);
    assert_eq!(total_a, 1);
    assert_eq!(total_b, 0);
}
