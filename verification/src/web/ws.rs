//! Messages over the websocket: what each asks the reader to do.
use vstd::prelude::*;

use crate::number::{parse_i32, parse_i32_spec};
use crate::web::types::{IncomingMessage, IncomingMessageType};

verus! {

/// What the reader does for a websocket message.
#[derive(Debug)]
pub enum WsAction {
    /// The message was not an `IncomingMessage`: log it.
    LogParseError,
    /// Mark this subscribed item read.
    MarkRead(i32),
    /// Subscribe the user to the feed these JSON `SubscribeParams` name.
    Subscribe(String),
    /// Add the user these JSON `LoginParams` describe.
    AddUser(String),
    /// Log these JSON `ChangePasswordParams`.
    ChangePassword(String),
    /// Log these JSON `SettingsData`.
    ChangeSettings(String),
}

/// What a websocket message asks for, given the message as parsed (`None`
/// where it is not an `IncomingMessage`). The data of a request to mark an
/// item read must be a decimal `i32`, the item's id. No reply is ever sent.
pub fn ws_incoming_msg(message: Option<IncomingMessage>) -> (r: WsAction)
    requires
        message matches Some(m) ==> (m.msg_type == IncomingMessageType::MarkRead ==> parse_i32_spec(
            m.data@,
        ) is Some),
    ensures
        message is None ==> r is LogParseError,
        message matches Some(m) ==> match m.msg_type {
            IncomingMessageType::MarkRead => r == WsAction::MarkRead(parse_i32_spec(m.data@)->0),
            IncomingMessageType::Subscribe => r matches WsAction::Subscribe(d) && d@ == m.data@,
            IncomingMessageType::AddUser => r matches WsAction::AddUser(d) && d@ == m.data@,
            IncomingMessageType::ChangePassword => r matches WsAction::ChangePassword(d) && d@
                == m.data@,
            IncomingMessageType::ChangeSettings => r matches WsAction::ChangeSettings(d) && d@
                == m.data@,
        },
{
    match message {
        Some(message) => match message.msg_type {
            IncomingMessageType::MarkRead => {
                match parse_i32(message.data.as_str()) {
                    Some(id) => WsAction::MarkRead(id),
                    None => WsAction::LogParseError,
                }
            },
            IncomingMessageType::Subscribe => WsAction::Subscribe(message.data),
            IncomingMessageType::AddUser => WsAction::AddUser(message.data),
            IncomingMessageType::ChangePassword => WsAction::ChangePassword(message.data),
            IncomingMessageType::ChangeSettings => WsAction::ChangeSettings(message.data),
        },
        None => WsAction::LogParseError,
    }
}

} // verus!
