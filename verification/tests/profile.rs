use user_profile_store::account::UserAccount;
use user_profile_store::errors::ProfileError;
use user_profile_store::instructions::{delete_user, initialize_user, update_user};
use user_profile_store::state::UserData;

fn record(name: &str, bio: &str, age: i8) -> UserData {
    UserData { name: name.to_string(), bio: bio.to_string(), age }
}

#[test]
fn create_valid_stores_exact_input() {
    let mut account = UserAccount::new();
    assert!(!account.has_record());
    let r = account.create(record("Alice", "hi", 20));
    assert_eq!(r, Ok(()));
    let stored = account.get().expect("record must exist after creation");
    assert_eq!(*stored, record("Alice", "hi", 20));
}

#[test]
fn create_under_age_fails_and_stores_nothing() {
    let mut account = UserAccount::new();
    let r = account.create(record("Alice", "hi", 18));
    assert_eq!(r, Err(ProfileError::InvalidData));
    assert!(!account.has_record());
}

#[test]
fn create_empty_name_fails_and_stores_nothing() {
    let mut account = UserAccount::new();
    let r = account.create(record("", "hi", 20));
    assert_eq!(r, Err(ProfileError::InvalidData));
    assert!(!account.has_record());
}

#[test]
fn create_empty_bio_fails_and_stores_nothing() {
    let mut account = UserAccount::new();
    let r = account.create(record("Alice", "", 20));
    assert_eq!(r, Err(ProfileError::InvalidData));
    assert!(!account.has_record());
}

#[test]
fn create_all_constraints_violated_fails() {
    let r = initialize_user(record("", "", 0));
    assert_eq!(r, Err(ProfileError::InvalidData));
}

#[test]
fn create_applies_no_length_cap() {
    let long = "x".repeat(60);
    let r = initialize_user(record(&long, "hi", 20));
    assert_eq!(r, Ok(record(&long, "hi", 20)));
}

#[test]
fn update_age_only_keeps_name_and_bio() {
    let mut account = UserAccount::new();
    account.create(record("Alice", "hi", 20)).unwrap();
    let r = account.update(None, None, Some(25));
    assert_eq!(r, Ok(()));
    assert_eq!(*account.get().unwrap(), record("Alice", "hi", 25));
}

#[test]
fn update_empty_name_short_circuits_valid_age() {
    let mut account = UserAccount::new();
    account.create(record("Alice", "hi", 20)).unwrap();
    let r = account.update(Some(String::new()), None, Some(30));
    assert_eq!(r, Err(ProfileError::EmptyName));
    assert_eq!(*account.get().unwrap(), record("Alice", "hi", 20));
}

#[test]
fn update_name_at_length_cap_succeeds() {
    let mut account = UserAccount::new();
    account.create(record("Alice", "hi", 20)).unwrap();
    let name50 = "n".repeat(50);
    let r = account.update(Some(name50.clone()), None, None);
    assert_eq!(r, Ok(()));
    assert_eq!(*account.get().unwrap(), record(&name50, "hi", 20));
}

#[test]
fn update_name_over_length_cap_fails() {
    let mut account = UserAccount::new();
    account.create(record("Alice", "hi", 20)).unwrap();
    let name51 = "n".repeat(51);
    let r = account.update(Some(name51), None, None);
    assert_eq!(r, Err(ProfileError::NameTooLong));
    assert_eq!(*account.get().unwrap(), record("Alice", "hi", 20));
}

#[test]
fn update_length_cap_counts_bytes() {
    // 26 two-byte characters: 26 characters but 52 bytes, over the cap.
    let mut data = record("Alice", "hi", 20);
    let wide = "\u{e9}".repeat(26);
    let r = update_user(&mut data, Some(wide), None, None);
    assert_eq!(r, Err(ProfileError::NameTooLong));
    assert_eq!(data, record("Alice", "hi", 20));
}

#[test]
fn update_bio_boundaries() {
    let mut data = record("Alice", "hi", 20);
    assert_eq!(update_user(&mut data, None, Some(String::new()), None), Err(ProfileError::EmptyBio));
    assert_eq!(update_user(&mut data, None, Some("b".repeat(51)), None), Err(ProfileError::BioTooLong));
    assert_eq!(data, record("Alice", "hi", 20));
    assert_eq!(update_user(&mut data, None, Some("b".repeat(50)), None), Ok(()));
    assert_eq!(data, record("Alice", &"b".repeat(50), 20));
}

#[test]
fn update_age_boundary() {
    let mut account = UserAccount::new();
    account.create(record("Alice", "hi", 20)).unwrap();
    let r = account.update(None, None, Some(18));
    assert_eq!(r, Err(ProfileError::InvalidAge));
    assert_eq!(*account.get().unwrap(), record("Alice", "hi", 20));
    let r = account.update(None, None, Some(19));
    assert_eq!(r, Ok(()));
    assert_eq!(*account.get().unwrap(), record("Alice", "hi", 19));
}

#[test]
fn update_bio_error_precedes_age_error() {
    let mut data = record("Alice", "hi", 20);
    let r = update_user(&mut data, None, Some(String::new()), Some(10));
    assert_eq!(r, Err(ProfileError::EmptyBio));
    assert_eq!(data, record("Alice", "hi", 20));
}

#[test]
fn update_all_fields_at_once() {
    let mut data = record("Alice", "hi", 20);
    let r = update_user(&mut data, Some("Bob".to_string()), Some("there".to_string()), Some(40));
    assert_eq!(r, Ok(()));
    assert_eq!(data, record("Bob", "there", 40));
}

#[test]
fn update_with_nothing_changes_nothing() {
    let mut account = UserAccount::new();
    account.create(record("Alice", "hi", 20)).unwrap();
    assert_eq!(account.update(None, None, None), Ok(()));
    assert_eq!(*account.get().unwrap(), record("Alice", "hi", 20));

    // Also on a record whose name a creation stored past the update cap.
    let long = "x".repeat(60);
    let mut data = record(&long, "hi", 20);
    assert_eq!(update_user(&mut data, None, None, None), Ok(()));
    assert_eq!(data, record(&long, "hi", 20));
}

#[test]
fn delete_without_confirmation_keeps_record() {
    let mut account = UserAccount::new();
    account.create(record("Alice", "hi", 20)).unwrap();
    let r = account.delete(false);
    assert_eq!(r, Err(ProfileError::FailedToDeleteAccount));
    assert!(account.has_record());
    assert_eq!(*account.get().unwrap(), record("Alice", "hi", 20));
}

#[test]
fn delete_with_confirmation_removes_record() {
    let mut account = UserAccount::new();
    account.create(record("Alice", "hi", 20)).unwrap();
    let r = account.delete(true);
    assert_eq!(r, Ok(()));
    assert!(!account.has_record());
    assert!(account.get().is_none());
}

#[test]
fn delete_gate_alone() {
    assert_eq!(delete_user(false), Err(ProfileError::FailedToDeleteAccount));
    assert_eq!(delete_user(true), Ok(()));
}

#[test]
fn lifecycle_create_update_delete() {
    let mut account = UserAccount::new();
    assert_eq!(account.create(record("Alice", "hi", 20)), Ok(()));
    assert_eq!(account.update(Some("Bob".to_string()), None, None), Ok(()));
    assert_eq!(*account.get().unwrap(), record("Bob", "hi", 20));
    assert_eq!(account.delete(true), Ok(()));
    assert!(!account.has_record());
}

#[test]
fn error_messages_are_fixed() {
    assert_eq!(ProfileError::EmptyName.message(), "Name must not be empty");
    assert_eq!(ProfileError::EmptyBio.message(), "Bio must not be empty");
    assert_eq!(ProfileError::NameTooLong.message(), "The provided name is too long");
    assert_eq!(ProfileError::BioTooLong.message(), "The provided bio is too long");
    assert_eq!(ProfileError::InvalidAge.message(), "Age must be over 18");
    assert_eq!(
        ProfileError::InvalidData.message(),
        "Invalid data: age must be over 18 and name/bio cannot be empty"
    );
    assert_eq!(ProfileError::FailedToDeleteAccount.message(), "Failed to delete user account");
}
