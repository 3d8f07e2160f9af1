use gratitude::interaction::command_handler::drop_user;
use gratitude::users::{
    apply_op, apply_page, contains_id, reconcile, registry_wf, upsert, BotUser, Page, PendingOp,
};

fn user(uid: &str, channel: &str) -> BotUser {
    BotUser { uid: uid.as_bytes().to_vec(), channel_id: channel.as_bytes().to_vec() }
}

fn ids(users: &[BotUser]) -> Vec<Vec<u8>> {
    users.iter().map(|u| u.uid.clone()).collect()
}

#[test]
fn upsert_adds_a_new_subscriber() {
    let mut users = vec![user("1", "c1")];
    upsert(&mut users, &user("2", "c2"));
    assert_eq!(ids(&users), vec![b"1".to_vec(), b"2".to_vec()]);
}

#[test]
fn upsert_replaces_in_place() {
    let mut users = vec![user("1", "c1"), user("2", "c2")];
    upsert(&mut users, &user("1", "c9"));
    assert_eq!(ids(&users), vec![b"1".to_vec(), b"2".to_vec()]);
    assert_eq!(users[0].channel_id, b"c9".to_vec());
}

#[test]
fn delete_wins_over_add_in_one_page() {
    // An unenrollment issued concurrently with a duplicate enrollment:
    // both land in the same pass, and the deletion takes precedence.
    let mut users = vec![user("a", "ca")];
    let page = Page {
        adds: vec![user("a", "ca")],
        dels: vec![b"a".to_vec()],
    };
    apply_page(&mut users, &page);
    assert!(!contains_id(&users, &b"a".to_vec()));
    assert_eq!(users.len(), 0);
}

#[test]
fn reconcile_reaches_the_final_operations() {
    let mut users: Vec<BotUser> = Vec::new();
    let pages = vec![
        Page { adds: vec![user("a", "ca"), user("b", "cb")], dels: vec![] },
        Page { adds: vec![user("c", "cc")], dels: vec![b"b".to_vec()] },
    ];
    reconcile(&mut users, &pages);
    assert!(contains_id(&users, &b"a".to_vec()));
    assert!(!contains_id(&users, &b"b".to_vec()));
    assert!(contains_id(&users, &b"c".to_vec()));
    assert!(registry_wf(&users));
}

#[test]
fn later_page_overrides_earlier_page() {
    let mut users: Vec<BotUser> = Vec::new();
    let pages = vec![
        Page { adds: vec![], dels: vec![b"a".to_vec()] },
        Page { adds: vec![user("a", "ca")], dels: vec![] },
    ];
    reconcile(&mut users, &pages);
    assert!(contains_id(&users, &b"a".to_vec()));
}

#[test]
fn applying_the_same_op_twice_changes_nothing() {
    let mut once = vec![user("a", "ca")];
    let op = PendingOp::Add(user("b", "cb"));
    apply_op(&mut once, &op);
    let mut twice = vec![user("a", "ca")];
    apply_op(&mut twice, &op);
    apply_op(&mut twice, &op);
    assert_eq!(ids(&once), ids(&twice));
    assert_eq!(once.len(), twice.len());

    let del = PendingOp::Delete(b"a".to_vec());
    apply_op(&mut once, &del);
    apply_op(&mut twice, &del);
    apply_op(&mut twice, &del);
    assert_eq!(ids(&once), ids(&twice));
}

#[test]
fn drop_user_removes_exactly_one() {
    let mut users = vec![user("a", "ca"), user("b", "cb")];
    assert!(drop_user(&mut users, &b"a".to_vec()).is_ok());
    assert_eq!(ids(&users), vec![b"b".to_vec()]);
}

#[test]
fn drop_user_reports_a_missing_subscriber() {
    let mut users = vec![user("a", "ca")];
    assert!(drop_user(&mut users, &b"x".to_vec()).is_err());
    assert_eq!(users.len(), 1);
}

#[test]
fn registry_wf_rejects_a_duplicate_uid() {
    let users = vec![user("a", "c1"), user("a", "c2")];
    assert!(!registry_wf(&users));
    assert!(registry_wf(&vec![user("a", "c1"), user("b", "c2")]));
}
