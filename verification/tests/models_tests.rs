use hermes::models::{CompositeItem, User};
use hermes::time::Timestamp;

fn user_with_hash(hash: &str) -> User {
    User { id: 7, username: "alice".to_string(), password_hash: hash.as_bytes().to_vec() }
}

#[test]
fn hash_pw_is_base64_of_sha256() {
    assert_eq!(User::hash_pw("admin"), "jGl25bVBBBW96Qi9Te4V37Fnqchz/Eu4qB9vKrRIqRg=");
    assert_eq!(User::hash_pw("secret"), "K7gNU3sdo+OL0wNhqoVWhr3g6s1xYv72ol/pe/Unols=");
    assert_eq!(User::hash_pw(""), "47DEQpj8HBSa+/TImW+5JCeuQeRkm5NMpJWZG3hSuFU=");
}

#[test]
fn check_user_accepts_the_stored_password() {
    let user = user_with_hash(&User::hash_pw("secret"));
    let checked = User::check_user(Some(user), "secret").expect("password accepted");
    assert_eq!(checked.id, 7);
    assert_eq!(checked.username, "alice");
}

#[test]
fn check_user_refuses_another_password() {
    let user = user_with_hash(&User::hash_pw("secret"));
    assert!(User::check_user(Some(user), "Secret").is_none());
}

#[test]
fn check_user_without_user() {
    assert!(User::check_user(None, "secret").is_none());
    assert_eq!(User::check_stored_user(None, "x").map(|u| u.is_none()), Ok(true));
}

#[test]
fn check_stored_user_refuses_a_hash_that_is_not_base64() {
    let user = user_with_hash("not base64!");
    assert!(User::check_stored_user(Some(user), "secret").is_err());
    let good = user_with_hash(&User::hash_pw("pw"));
    let found = User::check_stored_user(Some(good), "pw").expect("hash is base64");
    assert_eq!(found.map(|u| u.id), Some(7));
}

#[test]
fn composite_item_partial_leaves_out_link_and_content() {
    let when = Some(Timestamp { secs: 5, nanos: 0 });
    let item = CompositeItem::partial((3, "Title".to_string(), Some("sum".to_string()), when, None, true));
    assert_eq!(item.item_id, 3);
    assert_eq!(item.title, "Title");
    assert_eq!(item.link, None);
    assert_eq!(item.summary.as_deref(), Some("sum"));
    assert_eq!(item.content, None);
    assert_eq!(item.published_at, when);
    assert_eq!(item.updated_at, None);
    assert!(item.seen);
}

#[test]
fn admin_logs_in_with_its_password_only() {
    let admin = || User { id: 1, username: "admin".to_string(), password_hash: User::hash_pw("admin").into_bytes() };
    assert!(matches!(User::check_stored_user(Some(admin()), "admin"), Ok(Some(_))));
    assert!(matches!(User::check_stored_user(Some(admin()), "wrong"), Ok(None)));
}

#[test]
fn hashes_have_44_characters() {
    for p in ["", "a", "admin", "a much longer password than the others"] {
        assert_eq!(User::hash_pw(p).len(), 44);
    }
}
