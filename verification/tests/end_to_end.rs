//! A reconciliation pass driven the way the scheduled job drives it:
//! pending keys are listed, classified, folded into the parsed snapshot,
//! and the snapshot is written back.

use gratitude::codec::{add_key, classify_page, delete_key, encode_registry, parse_registry};
use gratitude::users::{apply_page, contains_id, registry_wf, BotUser};

fn user(uid: &str, channel: &str) -> BotUser {
    BotUser { uid: uid.as_bytes().to_vec(), channel_id: channel.as_bytes().to_vec() }
}

/// One simulated pass: read the snapshot blob, fold the listed keys in,
/// and write the new blob; exactly the verified pieces the job composes.
fn run_pass(snapshot: &Vec<u8>, keys: &Vec<Vec<u8>>) -> Vec<u8> {
    let mut users = parse_registry(snapshot).expect("the snapshot is well formed");
    assert!(registry_wf(&users), "the snapshot holds each uid once");
    let page = classify_page(keys).expect("every pending key is ours");
    apply_page(&mut users, &page);
    encode_registry(&users)
}

#[test]
fn enroll_then_reconcile_registers_the_subscriber() {
    let empty = encode_registry(&Vec::new());
    let keys = vec![add_key(&user("A", "chan-a"))];
    let snapshot = run_pass(&empty, &keys);
    let registry = parse_registry(&snapshot).unwrap();
    assert!(contains_id(&registry, &b"A".to_vec()));
    assert_eq!(registry[0].channel_id, b"chan-a".to_vec());
}

#[test]
fn concurrent_unenroll_beats_a_duplicate_enroll() {
    // First pass: A enrolls.
    let empty = encode_registry(&Vec::new());
    let snapshot = run_pass(&empty, &vec![add_key(&user("A", "chan-a"))]);
    assert!(contains_id(&parse_registry(&snapshot).unwrap(), &b"A".to_vec()));

    // Before the next pass, an unenrollment and a duplicate enrollment
    // race; both keys are pending when the pass runs. Deletion wins.
    let keys = vec![add_key(&user("A", "chan-a")), delete_key(&b"A".to_vec())];
    let snapshot = run_pass(&snapshot, &keys);
    assert!(!contains_id(&parse_registry(&snapshot).unwrap(), &b"A".to_vec()));
}

#[test]
fn a_retried_pass_over_undeleted_keys_changes_nothing() {
    // A crash after persisting the snapshot but before deleting the op
    // keys re-applies them next pass; the snapshot comes out the same.
    let empty = encode_registry(&Vec::new());
    let keys = vec![add_key(&user("A", "chan-a")), delete_key(&b"B".to_vec())];
    let first = run_pass(&empty, &keys);
    let second = run_pass(&first, &keys);
    assert_eq!(first, second);
}

#[test]
fn the_registry_key_itself_is_never_an_operation() {
    let empty = encode_registry(&Vec::new());
    let keys = vec![b"users".to_vec(), add_key(&user("A", "chan-a"))];
    let snapshot = run_pass(&empty, &keys);
    let registry = parse_registry(&snapshot).unwrap();
    assert_eq!(registry.len(), 1);
}
