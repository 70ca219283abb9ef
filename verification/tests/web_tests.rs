use hermes::models::{Claims, SubscribedFeed, SubscribedItem, User};
use hermes::time::Timestamp;
use hermes::web::handlers::{add_user, change_password};
use hermes::web::jwt::{authenticate, claims_for, decode_jwt, JwtErrorKind};
use hermes::web::make_claim;
use hermes::web::rest::{parse_updated, show_feeds, show_item, show_items};
use hermes::web::types::{AssetFile, IncomingMessage, IncomingMessageType, LoginParams};
use hermes::web::ws::{ws_incoming_msg, WsAction};
use hermes::web::Rejection;

fn claims(id: i32) -> Claims {
    Claims { name: "admin".to_string(), id }
}

fn login() -> LoginParams {
    LoginParams { username: "bob".to_string(), password: "pw".to_string() }
}

#[test]
fn add_user_by_admin_for_a_free_name() {
    let (name, hash) = add_user(&login(), &claims(1), None).expect("admin may add");
    assert_eq!(name, "pw");
    assert_eq!(hash, User::hash_pw("pw"));
}

#[test]
fn add_user_refused_for_others_and_taken_names() {
    assert!(add_user(&login(), &claims(2), None).is_err());
    let taken = User { id: 3, username: "bob".to_string(), password_hash: vec![] };
    assert!(add_user(&login(), &claims(1), Some(taken)).is_err());
}

#[test]
fn change_password_accepts() {
    assert_eq!(change_password("bob", "new"), Ok(()));
}

#[test]
fn decode_jwt_answers_401_for_bad_tokens() {
    assert_eq!(decode_jwt(Ok(claims(5))).map(|c| c.id), Ok(5));
    assert_eq!(decode_jwt(Err(JwtErrorKind::ExpiredSignature)).map(|c| c.id), Err(401));
    assert_eq!(decode_jwt(Err(JwtErrorKind::InvalidToken)).map(|c| c.id), Err(401));
}

#[test]
fn make_claim_rejects_undecoded_tokens() {
    assert_eq!(make_claim(Ok(claims(4))).map(|c| c.id), Ok(4));
    assert_eq!(make_claim(Err(401)).map(|c| c.id), Err(Rejection::NotFound));
}

#[test]
fn tokens_name_the_user() {
    let user = User { id: 8, username: "carol".to_string(), password_hash: vec![] };
    let c = claims_for(&user);
    assert_eq!((c.name.as_str(), c.id), ("carol", 8));
    assert_eq!(authenticate(Some(user)).map(|u| u.id), Ok(8));
    assert_eq!(authenticate(None).map(|u| u.id), Err(Rejection::BadRequest));
}

#[test]
fn show_item_marks_seen() {
    let item = SubscribedItem { id: 1, item_id: 2, user_id: 3, seen: false };
    assert_eq!(show_item(Some(item)), Ok(SubscribedItem { seen: true, ..item }));
    assert_eq!(show_item(None), Err(Rejection::BadRequest));
}

#[test]
fn show_feeds_and_items_pass_store_answers_on() {
    let feeds = vec![SubscribedFeed { id: 1, user_id: 2, feed_id: 3 }];
    assert_eq!(show_feeds(Some(feeds.clone())), Ok(feeds));
    assert_eq!(show_feeds(None), Err(Rejection::NotFound));
    assert_eq!(show_items(Some(vec![])), Ok(vec![]));
    assert_eq!(show_items(None), Err(Rejection::NotFound));
}

#[test]
fn parse_updated_reads_rfc3339() {
    assert_eq!(parse_updated(None), Ok(None));
    assert_eq!(
        parse_updated(Some("2012-12-12T12:12:12Z")),
        Ok(Some(Timestamp { secs: 1355314332, nanos: 0 }))
    );
    assert_eq!(parse_updated(Some("Wed, 18 Feb 2015 23:16:09 GMT")), Err(Rejection::NotFound));
}

#[test]
fn asset_names() {
    assert_eq!(AssetFile::from_str("main.css").map(|a| a.0), Ok("main.css".to_string()));
    assert_eq!(AssetFile::from_str("static-favicon2.png").map(|a| a.0), Ok("favicon2.png".to_string()));
    assert_eq!(AssetFile::from_str("mainxjs").map(|a| a.0), Ok("mainxjs".to_string()));
    assert_eq!(AssetFile::from_str("index.html").map(|a| a.0), Err(Rejection::NotFound));
}

fn message(msg_type: IncomingMessageType, data: &str) -> Option<IncomingMessage> {
    Some(IncomingMessage { msg_type, data: data.to_string() })
}

#[test]
fn websocket_messages() {
    assert!(matches!(ws_incoming_msg(None), WsAction::LogParseError));
    assert!(matches!(ws_incoming_msg(message(IncomingMessageType::MarkRead, "17")), WsAction::MarkRead(17)));
    match ws_incoming_msg(message(IncomingMessageType::Subscribe, "{\"feed_url\":\"u\"}")) {
        WsAction::Subscribe(d) => assert_eq!(d, "{\"feed_url\":\"u\"}"),
        other => panic!("unexpected {:?}", other),
    }
    assert!(matches!(ws_incoming_msg(message(IncomingMessageType::AddUser, "{}")), WsAction::AddUser(_)));
    assert!(matches!(
        ws_incoming_msg(message(IncomingMessageType::ChangePassword, "{}")),
        WsAction::ChangePassword(_)
    ));
    assert!(matches!(
        ws_incoming_msg(message(IncomingMessageType::ChangeSettings, "{}")),
        WsAction::ChangeSettings(_)
    ));
}
