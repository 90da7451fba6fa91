//! The session of the messenger, and the status that it is known to have.

use vstd::prelude::*;

use crate::text::{optional_text, same_text};

verus! {

/// A session of the messenger as it is on record.
#[derive(Debug, PartialEq, Eq)]
pub struct Session {
    pub id: String,
    pub login_state: String,
    pub logged_in_user: Option<String>,
}

/// The reply to a request for the status.
#[derive(Debug, PartialEq, Eq)]
pub struct StatusReply {
    pub container: &'static str,
    pub login_state: &'static str,
    pub logged_in_user: Option<String>,
    pub version: &'static str,
}

/// Whether the record says that a user is logged in.
pub open spec fn recorded_login(session: Option<Session>) -> bool {
    session matches Some(s) && s.login_state@ == "logged_in"@
}

/// The user on record.
pub open spec fn recorded_user(session: Option<Session>) -> Option<Seq<char>> {
    match session {
        Some(s) => optional_text(s.logged_in_user),
        None => None,
    }
}

/// The status of the server. The record counts only while the messenger runs.
pub fn get_status(
    session: Option<Session>,
    wechat_running: bool,
    version: &'static str,
) -> (reply: StatusReply)
    ensures
        reply.container@ == "running"@,
        reply.login_state@ == (if wechat_running && recorded_login(session) {
            "logged_in"@
        } else {
            "logged_out"@
        }),
        optional_text(reply.logged_in_user) == (if wechat_running {
            recorded_user(session)
        } else {
            None
        }),
        reply.version@ == version@,
{
    let login_state: &'static str = match &session {
        Some(s) => if wechat_running && same_text(s.login_state.as_str(), "logged_in") {
            "logged_in"
        } else {
            "logged_out"
        },
        None => "logged_out",
    };
    let logged_in_user: Option<String> = if wechat_running {
        match session {
            Some(s) => s.logged_in_user,
            None => None,
        }
    } else {
        None
    };
    StatusReply { container: "running", login_state, logged_in_user, version }
}

} // verus!
