//! Signing in and finding a school.

use vstd::prelude::*;
use vstd::string::StringExecFns;
use crate::json::JsonValue;
use crate::prelude::{School, SchoolView, SduiError};

verus! {

/// Address to which a login is sent.
pub const LOGIN_URL: &'static str = "https://api.sdui.app/v1/auth/login";

/// Address of the search for schools by a part of their name.
pub open spec fn search_address(school: Seq<char>) -> Seq<char> {
    "https://api.sdui.app/v1/leads?search="@ + school
}

/// Address under which schools are searched by a part of their name.
pub fn search_url(school: &str) -> (url: String)
    ensures
        url@ == search_address(school@),
{
    let mut url = "https://api.sdui.app/v1/leads?search=".to_owned();
    url.append(school);
    url
}

/// What a login sends.
#[derive(Debug, Clone)]
pub struct LoginData {
    pub identifier: String,
    pub password: String,
    pub slink: String,
    pub stay_logged_in: bool,
    pub show_error: bool,
}

/// What a successful login returns: the token and the seconds for which it
/// is valid.
#[derive(Debug)]
pub struct LoginResponse {
    access_token: String,
    expires_in: u64,
}

/// What a login response holds.
pub struct LoginResponseView {
    pub access_token: Seq<char>,
    pub expires_in: u64,
}

impl View for LoginResponse {
    type V = LoginResponseView;

    closed spec fn view(&self) -> LoginResponseView {
        LoginResponseView { access_token: self.access_token@, expires_in: self.expires_in }
    }
}

impl LoginResponse {
    /// The login response that a JSON value describes: an object with a
    /// string `access_token` and a number `expires_in`.
    pub open spec fn read(value: JsonValue) -> Option<LoginResponseView> {
        if value.member_text("access_token"@) is Some && value.member_number("expires_in"@)
            is Some {
            Some(
                LoginResponseView {
                    access_token: value.member_text("access_token"@)->0,
                    expires_in: value.member_number("expires_in"@)->0,
                },
            )
        } else {
            None
        }
    }

    /// Reads a login response from a JSON value; `None` where the value
    /// does not describe one.
    pub fn from_value(value: &JsonValue) -> (response: Option<LoginResponse>)
        ensures
            response is Some == LoginResponse::read(*value) is Some,
            response matches Some(r) ==> r@ == LoginResponse::read(*value)->0,
    {
        let access_token = match value.get_text("access_token") {
            Some(token) => token,
            None => {
                return None;
            },
        };
        let expires_in = match value.get_u64("expires_in") {
            Some(seconds) => seconds,
            None => {
                return None;
            },
        };
        Some(LoginResponse { access_token, expires_in })
    }

    /// The token that the other calls take as the credential.
    pub fn get_token(&self) -> (token: String)
        ensures
            token@ == self@.access_token,
    {
        self.access_token.clone()
    }

    /// The seconds for which the token is valid.
    pub fn get_expires_in(&self) -> (seconds: u64)
        ensures
            seconds == self@.expires_in,
    {
        self.expires_in
    }
}

/// What a login gives for the payload of the answer: the response that the
/// payload describes, or `LoginError` where it describes none.
pub fn login_response(data: &JsonValue) -> (outcome: Result<LoginResponse, SduiError>)
    ensures
        outcome is Ok == LoginResponse::read(*data) is Some,
        outcome matches Ok(r) ==> r@ == LoginResponse::read(*data)->0,
        outcome matches Err(e) ==> e == SduiError::LoginError,
{
    match LoginResponse::from_value(data) {
        Some(response) => Ok(response),
        None => Err(SduiError::LoginError),
    }
}

/// The schools that a row of JSON values describes: of each value that
/// describes a school that school, in the order of the values.
pub open spec fn schools_in(items: Seq<JsonValue>) -> Seq<SchoolView> {
    items.filter_map(|item: JsonValue| School::read(item))
}

/// The views of a row of schools.
pub open spec fn school_views(schools: Seq<School>) -> Seq<SchoolView> {
    schools.map_values(|school: School| school@)
}

/// What a search gives for the payload of the answer: the schools that the
/// items of the payload describe, items that describe none left out, or
/// `JSONError` where the payload is no array.
pub fn schools_from_value(data: &JsonValue) -> (outcome: Result<Vec<School>, SduiError>)
    ensures
        outcome is Ok == data.items() is Some,
        outcome matches Ok(schools) ==> school_views(schools@) == schools_in(data.items()->0),
        outcome matches Err(e) ==> e == SduiError::JSONError,
{
    let items = match data.as_array() {
        Some(items) => items,
        None => {
            return Err(SduiError::JSONError);
        },
    };
    let mut schools: Vec<School> = Vec::new();
    let mut i: usize = 0;
    while i < items.len()
        invariant
            i <= items.len(),
            school_views(schools@) == schools_in(items@.take(i as int)),
        decreases items.len() - i,
    {
        proof {
            items@.lemma_filter_map_take_succ(|item: JsonValue| School::read(item), i as int);
        }
        match School::from_value(&items[i]) {
            Some(school) => {
                schools.push(school);
            },
            None => {},
        }
        i = i + 1;
    }
    assert(items@.take(i as int) == items@);
    Ok(schools)
}

} // verus!
