//! Users and their profiles.

use vstd::prelude::*;
use vstd::string::StringExecFns;
use crate::grade::Grade;
use crate::text::{decimal, u64_to_string};

verus! {

/// Address under which the current user's profile is fetched.
pub const SELF_URL: &'static str = "https://api.sdui.app/v1/users/self";

/// Address of the profile of the user with the given identifier.
pub open spec fn user_address(user_id: u64) -> Seq<char> {
    "https://api.sdui.app/v1/users/"@ + decimal(user_id as nat)
}

/// Address under which the profile of a user is fetched.
pub fn user_url(user_id: u64) -> (url: String)
    ensures
        url@ == user_address(user_id),
{
    let mut url = "https://api.sdui.app/v1/users/".to_owned();
    url.append(u64_to_string(user_id).as_str());
    url
}

/// A user as other records refer to one.
#[derive(Debug, Clone, Hash, Eq, PartialEq, PartialOrd, Ord)]
pub struct PartialSduiUser {
    pub id: u64,
    pub school_id: u64,
    pub role: String,
    pub title: Option<String>,
    pub state: Option<String>,
    pub expire_at: Option<u64>,
    pub locale: Option<String>,
    pub shortcut: Option<UserShortcut>,
    pub shortcut_id: Option<u64>,
    pub grade: Option<Grade>,
    pub grade_id: Option<u64>,
    pub meta: Option<UserMeta>,
}

/// A user with the full profile.
#[derive(Debug, Clone, Hash, Eq, PartialEq, PartialOrd, Ord)]
pub struct SduiUser {
    pub uuid: String,
    pub firstname: String,
    pub lastname: String,
    pub role: String,
    pub title: Option<String>,
    pub sex: char,
    pub state: String,
    pub expire_at: Option<u64>,
    pub locale: String,
    pub shortcut: Option<UserShortcut>,
    pub shortcut_id: Option<u64>,
    pub grade: Option<Grade>,
    pub grade_id: Option<u64>,
    pub meta: UserMeta,
}

/// Display data and state of a user.
#[derive(Debug, Clone, Hash, Eq, PartialEq, PartialOrd, Ord)]
pub struct UserMeta {
    pub displayname: String,
    pub subtitle: String,
    pub role: String,
    pub uri: String,
    pub avatar_uri: Option<String>,
    pub salutation: String,
    pub days_until_deletion: u64,
    pub is_signed: bool,
    pub is_paused: bool,
    pub archived_at: Option<u64>,
    pub deleted_at: Option<u64>,
    pub is_trackable_classbook_user: bool,
    pub calendar_notification_count: u64,
}

/// The abbreviation under which a teacher appears in timetables.
#[derive(Debug, Clone, Hash, Eq, PartialEq, PartialOrd, Ord)]
pub struct UserShortcut {
    pub id: u64,
    pub school_id: u64,
    pub shortcut: String,
    pub name: String,
    pub description: Option<String>,
    pub meta: UserShortcutMeta,
}

/// Display name of a user shortcut.
#[derive(Debug, Clone, Hash, Eq, PartialEq, PartialOrd, Ord)]
pub struct UserShortcutMeta {
    pub displayname: String,
}

} // verus!
