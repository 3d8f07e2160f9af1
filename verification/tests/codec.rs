use gratitude::codec::{
    add_key, classify_key, classify_page, delete_key, encode_entries, encode_registry,
    encode_subscriber, parse_entries, parse_registry, parse_subscriber, registry_key, KeyClass,
};
use gratitude::users::{BotUser, PendingOp};

fn user(uid: &str, channel: &str) -> BotUser {
    BotUser { uid: uid.as_bytes().to_vec(), channel_id: channel.as_bytes().to_vec() }
}

#[test]
fn subscriber_encodes_as_json() {
    let encoded = encode_subscriber(&user("123", "456"));
    assert_eq!(encoded, br#"{"uid":"123","channel_id":"456"}"#.to_vec());
}

#[test]
fn subscriber_round_trips() {
    let encoded = encode_subscriber(&user("123", "456"));
    let (parsed, consumed) = parse_subscriber(&encoded, 0).expect("parses");
    assert_eq!(consumed, encoded.len());
    assert_eq!(parsed.uid, b"123".to_vec());
    assert_eq!(parsed.channel_id, b"456".to_vec());
}

#[test]
fn subscriber_round_trips_with_escapes() {
    let tricky = BotUser { uid: b"a\"b\\c".to_vec(), channel_id: b"\\\"".to_vec() };
    let encoded = encode_subscriber(&tricky);
    let (parsed, consumed) = parse_subscriber(&encoded, 0).expect("parses");
    assert_eq!(consumed, encoded.len());
    assert_eq!(parsed.uid, tricky.uid);
    assert_eq!(parsed.channel_id, tricky.channel_id);
}

#[test]
fn add_key_reads_back_as_the_same_addition() {
    let key = add_key(&user("42", "777"));
    assert!(key.starts_with(b"ADD "));
    match classify_key(&key) {
        Some(KeyClass::Op(PendingOp::Add(u))) => {
            assert_eq!(u.uid, b"42".to_vec());
            assert_eq!(u.channel_id, b"777".to_vec());
        }
        _ => panic!("an addition key must classify as its addition"),
    }
}

#[test]
fn delete_key_reads_back_as_the_same_deletion() {
    let key = delete_key(&b"42".to_vec());
    assert_eq!(key, b"DELETE 42".to_vec());
    match classify_key(&key) {
        Some(KeyClass::Op(PendingOp::Delete(id))) => assert_eq!(id, b"42".to_vec()),
        _ => panic!("a deletion key must classify as its deletion"),
    }
}

#[test]
fn the_registry_key_is_set_aside() {
    let key = registry_key();
    assert_eq!(key, b"users".to_vec());
    assert!(matches!(classify_key(&key), Some(KeyClass::Registry)));
}

#[test]
fn a_foreign_key_fails_classification() {
    assert!(classify_key(&b"GARBAGE 1".to_vec()).is_none());
    assert!(classify_key(&b"ADD not-json".to_vec()).is_none());
    assert!(classify_key(&b"ADD ".to_vec()).is_none());
}

#[test]
fn a_page_of_keys_classifies_in_order() {
    let keys = vec![
        add_key(&user("1", "c1")),
        b"users".to_vec(),
        delete_key(&b"2".to_vec()),
        add_key(&user("3", "c3")),
    ];
    let page = classify_page(&keys).expect("all keys are ours");
    assert_eq!(page.adds.len(), 2);
    assert_eq!(page.adds[0].uid, b"1".to_vec());
    assert_eq!(page.adds[1].uid, b"3".to_vec());
    assert_eq!(page.dels, vec![b"2".to_vec()]);
}

#[test]
fn a_page_with_a_foreign_key_fails_whole() {
    let keys = vec![add_key(&user("1", "c1")), b"weird".to_vec()];
    assert!(classify_page(&keys).is_none());
}

#[test]
fn registry_blob_round_trips() {
    let users = vec![user("1", "c1"), user("2", "c2")];
    let blob = encode_registry(&users);
    assert_eq!(blob, br#"[{"uid":"1","channel_id":"c1"},{"uid":"2","channel_id":"c2"}]"#.to_vec());
    let parsed = parse_registry(&blob).expect("parses");
    assert_eq!(parsed.len(), 2);
    assert_eq!(parsed[0].uid, b"1".to_vec());
    assert_eq!(parsed[1].channel_id, b"c2".to_vec());
}

#[test]
fn empty_registry_blob_round_trips() {
    let blob = encode_registry(&Vec::new());
    assert_eq!(blob, b"[]".to_vec());
    assert_eq!(parse_registry(&blob).expect("parses").len(), 0);
}

#[test]
fn malformed_registry_blob_is_rejected() {
    assert!(parse_registry(&b"".to_vec()).is_none());
    assert!(parse_registry(&b"{}".to_vec()).is_none());
    assert!(parse_registry(&br#"[{"uid":"1","channel_id":"c1"}"#.to_vec()).is_none());
    assert!(parse_registry(&br#"[{"uid":"1","channel_id":"c1"}]x"#.to_vec()).is_none());
}

#[test]
fn journal_blob_round_trips() {
    let entries = vec![b"a nice meal".to_vec(), b"quote \" and slash \\".to_vec()];
    let blob = encode_entries(&entries);
    let parsed = parse_entries(&blob).expect("parses");
    assert_eq!(parsed, entries);
}

#[test]
fn empty_journal_blob_round_trips() {
    let blob = encode_entries(&Vec::new());
    assert_eq!(blob, b"[]".to_vec());
    assert_eq!(parse_entries(&blob).expect("parses").len(), 0);
}

#[test]
fn identical_operations_write_identical_keys() {
    // A retried enrollment writes the very same key again: a no-op in
    // effect, never a second pending operation.
    assert_eq!(add_key(&user("9", "c9")), add_key(&user("9", "c9")));
    assert_eq!(delete_key(&b"9".to_vec()), delete_key(&b"9".to_vec()));
    assert_ne!(add_key(&user("9", "c9")), delete_key(&b"9".to_vec()));
}
