//! The messages and parameters that the web interface receives.
use vstd::prelude::*;

use crate::pattern::{regex_compiles, regex_first_group, regex_group, regex_valid};
use crate::web::Rejection;

verus! {

/// Settings sent by a user, by name.
#[derive(Debug)]
pub struct SettingsData {
    pub data: std::collections::HashMap<String, String>,
}

/// A login: user name and password.
#[derive(Debug)]
pub struct LoginParams {
    pub username: String,
    pub password: String,
}

/// A request to change a password.
#[derive(Debug)]
pub struct ChangePasswordParams {
    pub username: String,
    pub old_pass: String,
    pub new_pass: String,
}

/// A request to subscribe to the feed at a URL.
#[derive(Debug)]
pub struct SubscribeParams {
    pub feed_url: String,
}

/// What a message over the websocket asks for.
#[derive(Clone, Copy, Debug, PartialEq, Eq, Structural)]
pub enum IncomingMessageType {
    MarkRead,
    Subscribe,
    AddUser,
    ChangePassword,
    ChangeSettings,
}

/// A message over the websocket: what it asks for, and its data as text.
#[derive(Debug)]
pub struct IncomingMessage {
    pub msg_type: IncomingMessageType,
    pub data: String,
}

/// The token that a query string carries.
#[derive(Debug)]
pub struct AccessToken {
    pub access_token: String,
}

/// The name of a static asset of the user interface.
#[derive(Debug)]
pub struct AssetFile(pub String);

/// The names that are served as assets: `main` or `favicon2`, any one
/// character, then `css`, `js` or `png`, found anywhere in the path segment.
pub open spec fn asset_pattern() -> Seq<char> {
    "((?:main|favicon2).(?:css|js|png))"@
}

impl AssetFile {
    /// The asset that a path segment names: the first match of the asset
    /// pattern in it, or a rejection (not found) where there is none (or
    /// where `regex` would refuse the pattern).
    pub fn from_str(s: &str) -> (r: Result<AssetFile, Rejection>)
        ensures
            !regex_compiles(asset_pattern()) ==> r == Err::<AssetFile, Rejection>(
                Rejection::NotFound,
            ),
            regex_compiles(asset_pattern()) ==> match regex_group(asset_pattern(), s@) {
                Some(name) => r matches Ok(a) && a.0@ == name,
                None => r == Err::<AssetFile, Rejection>(Rejection::NotFound),
            },
    {
        let pattern = "((?:main|favicon2).(?:css|js|png))";
        if !regex_valid(pattern) {
            return Err(Rejection::NotFound);
        }
        match regex_first_group(pattern, s) {
            Some(name) => Ok(AssetFile(name)),
            None => Err(Rejection::NotFound),
        }
    }
}

} // verus!
