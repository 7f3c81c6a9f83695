use cpass::cipher::KdfParams;
use cpass::error::CpassError;
use cpass::models::AddPassword;
use cpass::tags::{add_tags, remove_tags, set_tags};
use cpass::txn::{Statement, TxAction, TxRunner};
use cpass::vault::{
    add_secret_tags, delete_secret, prepare_patch, prepare_secret, read_secret, remove_secret_tags,
    replace_secret_tags, reveal_secret, update_secret, OwnershipPolicy, SecretChange, SecretPatch,
    Password,
};

const ALICE: u128 = 1;
const BOB: u128 = 2;

fn cheap() -> KdfParams {
    KdfParams::new(64, 1, 1).unwrap()
}

fn strings(v: &[&str]) -> Vec<String> {
    v.iter().map(|s| s.to_string()).collect()
}

fn bank() -> Password {
    let request = AddPassword {
        password: "1234".to_string(),
        name: "bank".to_string(),
        website: Some("bank.example".to_string()),
        username: Some("alice".to_string()),
        description: Some("checking".to_string()),
        master_password: "mp".to_string(),
        tags: Some(strings(&["finance", "urgent"])),
    };
    prepare_secret(request, ALICE, cheap()).unwrap().into_record(100)
}

#[test]
fn adding_a_tag_twice_stores_it_once() {
    let mut tags = strings(&["a"]);
    let added = add_tags(&mut tags, &strings(&["b", "b"]));
    assert_eq!(added, strings(&["b"]));
    assert_eq!(tags, strings(&["a", "b"]));
    let again = add_tags(&mut tags, &strings(&["b"]));
    assert!(again.is_empty());
    assert_eq!(tags, strings(&["a", "b"]));
}

#[test]
fn re_adding_existing_tags_keeps_the_count() {
    let mut tags = strings(&["x", "y", "z"]);
    let all = tags.clone();
    let added = add_tags(&mut tags, &all);
    assert!(added.is_empty());
    assert_eq!(tags.len(), 3);
}

#[test]
fn removing_and_replacing_tags() {
    let mut tags = strings(&["a", "b", "c"]);
    remove_tags(&mut tags, &strings(&["b", "q"]));
    assert_eq!(tags, strings(&["a", "c"]));
    set_tags(&mut tags, &strings(&["d", "d", "e"]));
    assert_eq!(tags, strings(&["d", "e"]));
    set_tags(&mut tags, &Vec::new());
    assert!(tags.is_empty());
}

#[test]
fn created_secret_opens_only_with_its_passphrase() {
    let rec = bank();
    assert_eq!(rec.name, "bank");
    assert_eq!(rec.tags, strings(&["finance", "urgent"]));
    assert_ne!(rec.ciphertext, b"1234".to_vec());
    let p = OwnershipPolicy::HideExistence;
    assert_eq!(reveal_secret(Some(&rec), ALICE, b"mp", cheap(), p).unwrap(), b"1234".to_vec());
    assert_eq!(
        reveal_secret(Some(&rec), ALICE, b"wrong", cheap(), p),
        Err(CpassError::AuthenticationFailed)
    );
}

#[test]
fn update_with_name_only_keeps_the_rest() {
    let mut rec = bank();
    let before = rec.clone();
    let change = SecretChange {
        name: Some("bank-2".to_string()),
        password: None,
        master_password: None,
        website: None,
        username: None,
        description: None,
        tags: None,
    };
    let patch = prepare_patch(change, cheap()).unwrap();
    update_secret(&mut rec, ALICE, patch, OwnershipPolicy::HideExistence).unwrap();
    assert_eq!(rec.name, "bank-2");
    assert_eq!(rec.website, before.website);
    assert_eq!(rec.username, before.username);
    assert_eq!(rec.description, before.description);
    assert_eq!(rec.tags, before.tags);
    assert_eq!(rec.ciphertext, before.ciphertext);
    assert_eq!(rec.salt, before.salt);
}

#[test]
fn update_with_new_secret_reseals() {
    let mut rec = bank();
    let change = SecretChange {
        name: None,
        password: Some("5678".to_string()),
        master_password: Some("mp".to_string()),
        website: None,
        username: None,
        description: None,
        tags: Some(strings(&["x", "x"])),
    };
    let patch = prepare_patch(change, cheap()).unwrap();
    update_secret(&mut rec, ALICE, patch, OwnershipPolicy::HideExistence).unwrap();
    assert_eq!(rec.tags, strings(&["x"]));
    let opened = reveal_secret(Some(&rec), ALICE, b"mp", cheap(), OwnershipPolicy::HideExistence);
    assert_eq!(opened.unwrap(), b"5678".to_vec());
}

#[test]
fn new_secret_without_passphrase_is_refused() {
    let change = SecretChange {
        name: None,
        password: Some("5678".to_string()),
        master_password: None,
        website: None,
        username: None,
        description: None,
        tags: None,
    };
    assert!(matches!(prepare_patch(change, cheap()), Err(CpassError::InvalidRequest(_))));
}

#[test]
fn other_users_are_refused_everywhere() {
    let mut rec = bank();
    let before = rec.clone();
    for policy in [OwnershipPolicy::HideExistence, OwnershipPolicy::RevealExistence] {
        let patch = SecretPatch {
            name: Some("mine".to_string()),
            sealed: None,
            website: None,
            username: None,
            description: None,
            tags: None,
        };
        assert!(update_secret(&mut rec, BOB, patch, policy).is_err());
        assert!(read_secret(Some(&rec), BOB, policy).is_err());
        assert!(delete_secret(Some(&rec), BOB, policy).is_err());
        assert!(add_secret_tags(&mut rec, BOB, &strings(&["t"]), policy).is_err());
        assert!(remove_secret_tags(&mut rec, BOB, &strings(&["finance"]), policy).is_err());
        assert!(replace_secret_tags(&mut rec, BOB, &strings(&["t"]), policy).is_err());
        assert!(reveal_secret(Some(&rec), BOB, b"mp", cheap(), policy).is_err());
        assert_eq!(rec, before);
    }
}

#[test]
fn refusal_follows_the_policy() {
    let rec = bank();
    assert!(matches!(
        read_secret(Some(&rec), BOB, OwnershipPolicy::HideExistence),
        Err(CpassError::NotFound(_))
    ));
    assert_eq!(
        read_secret(Some(&rec), BOB, OwnershipPolicy::RevealExistence),
        Err(CpassError::Forbidden)
    );
    assert!(matches!(
        read_secret(None, ALICE, OwnershipPolicy::RevealExistence),
        Err(CpassError::NotFound(_))
    ));
    assert_eq!(delete_secret(Some(&rec), ALICE, OwnershipPolicy::RevealExistence), Ok(()));
}

#[test]
fn owner_tag_operations() {
    let mut rec = bank();
    let p = OwnershipPolicy::RevealExistence;
    let added = add_secret_tags(&mut rec, ALICE, &strings(&["urgent", "home"]), p).unwrap();
    assert_eq!(added, strings(&["home"]));
    assert_eq!(rec.tags, strings(&["finance", "urgent", "home"]));
    remove_secret_tags(&mut rec, ALICE, &strings(&["urgent"]), p).unwrap();
    assert_eq!(rec.tags, strings(&["finance", "home"]));
    replace_secret_tags(&mut rec, ALICE, &strings(&["one"]), p).unwrap();
    assert_eq!(rec.tags, strings(&["one"]));
}

#[test]
fn failed_tag_insert_rolls_back_the_secret() {
    let mut tx = TxRunner::create_secret();
    assert_eq!(tx.first_action(), TxAction::Run(Statement::InsertSecret));
    assert_eq!(tx.on_result(true), TxAction::Run(Statement::InsertTags));
    assert_eq!(tx.on_result(false), TxAction::Rollback);
    assert_eq!(tx.on_result(true), TxAction::Finish);
    assert!(!tx.committed());
}

#[test]
fn successful_writes_commit() {
    let mut tx = TxRunner::create_secret();
    assert_eq!(tx.on_result(true), TxAction::Run(Statement::InsertTags));
    assert_eq!(tx.on_result(true), TxAction::Commit);
    assert_eq!(tx.on_result(true), TxAction::Finish);
    assert!(tx.committed());
}

#[test]
fn failed_commit_is_not_committed() {
    let mut tx = TxRunner::replace_tags();
    assert_eq!(tx.first_action(), TxAction::Run(Statement::DeleteTags));
    assert_eq!(tx.on_result(true), TxAction::Run(Statement::InsertTags));
    assert_eq!(tx.on_result(true), TxAction::Commit);
    assert_eq!(tx.on_result(false), TxAction::Finish);
    assert!(!tx.committed());
}

#[test]
fn failed_first_statement_rolls_back() {
    let mut tx = TxRunner::replace_tags();
    assert_eq!(tx.on_result(false), TxAction::Rollback);
    assert_eq!(tx.on_result(false), TxAction::Finish);
    assert!(!tx.committed());
}
