//! What every part of the client shares: quota snapshots, errors, the
//! envelope of a response and the record of a school.

use vstd::prelude::*;
use reqwest::header::{HeaderMap, HeaderValue};
use crate::json::JsonValue;
use crate::text::{parse_u64, read_u64};

verus! {

/// The headers of a response, as the HTTP client delivers them.
#[verifier::external_type_specification]
#[verifier::external_body]
#[verifier::reject_recursive_types(T)]
pub struct ExHeaderMap<T>(reqwest::header::HeaderMap<T>);

/// The value of one header, as the HTTP client delivers it.
#[verifier::external_type_specification]
#[verifier::external_body]
pub struct ExHeaderValue(reqwest::header::HeaderValue);

/// A failure of the HTTP client: of the transport, of a status, or of
/// decoding a body.
#[verifier::external_type_specification]
#[verifier::external_body]
pub struct ExRequestError(reqwest::Error);

/// What the headers hold: for every name under which they hold a value, the
/// bytes of the first value under it. The name is the text by which a header
/// is looked up.
pub uninterp spec fn header_bytes(headers: HeaderMap) -> Map<Seq<char>, Seq<u8>>;

/// The bytes that the value of a header holds.
pub uninterp spec fn header_value_bytes(value: HeaderValue) -> Seq<u8>;

/// Name of the header that carries the ceiling of the quota.
pub const LIMIT_HEADER: &'static str = "x-ratelimit-limit";

/// Name of the header that carries what is left of the quota.
pub const REMAINING_HEADER: &'static str = "x-ratelimit-remaining";

/// API quota snapshot returned by the service with every response.
#[derive(Debug, Clone, Copy, PartialEq, Eq, Structural)]
pub struct RateLimit {
    pub limit: u64,
    pub remaining: u64,
}

/// The smaller of two quota figures.
pub open spec fn min_u64(a: u64, b: u64) -> u64 {
    if a <= b {
        a
    } else {
        b
    }
}

/// The quota figure that a header text stands for: the number it reads as,
/// and zero where there is no text or it reads as no number.
pub open spec fn quota_figure(text: Option<Seq<char>>) -> u64 {
    match text {
        Some(text) => match read_u64(text) {
            Some(number) => number,
            None => 0,
        },
        None => 0,
    }
}

/// Whether a byte is visible ASCII: a printable character or a tab.
pub open spec fn is_visible_ascii(byte: u8) -> bool {
    32 <= byte < 127 || byte == 9
}

/// Whether every byte is visible ASCII.
pub open spec fn all_visible_ascii(bytes: Seq<u8>) -> bool {
    forall|i: int| 0 <= i < bytes.len() ==> is_visible_ascii(#[trigger] bytes[i])
}

/// The text that ASCII bytes spell: one character for each byte.
pub open spec fn ascii_text(bytes: Seq<u8>) -> Seq<char> {
    bytes.map_values(|byte: u8| byte as char)
}

/// The text of a header: that of the first value under the name, if there is
/// one and all of it is visible ASCII.
pub open spec fn header_text_of(headers: HeaderMap, name: Seq<char>) -> Option<Seq<char>> {
    if header_bytes(headers).contains_key(name) && all_visible_ascii(header_bytes(headers)[name]) {
        Some(ascii_text(header_bytes(headers)[name]))
    } else {
        None
    }
}

/// `HeaderMap::get` with a text as the key: the first value that the headers
/// hold under that name, or `None` where they hold none.
#[verifier::external_body]
fn header_value<'a>(headers: &'a HeaderMap, name: &str) -> (value: Option<&'a HeaderValue>)
    ensures
        value is Some == header_bytes(*headers).contains_key(name@),
        value matches Some(found) ==> header_value_bytes(*found) == header_bytes(*headers)[name@],
{
    headers.get(name)
}

/// `HeaderValue::to_str`: the value as text where every byte of it is
/// visible ASCII, with one character for each byte, and `None` otherwise.
#[verifier::external_body]
fn header_value_text(value: &HeaderValue) -> (text: Option<&str>)
    ensures
        text is Some == all_visible_ascii(header_value_bytes(*value)),
        text matches Some(found) ==> found@ == ascii_text(header_value_bytes(*value)),
{
    match value.to_str() {
        Ok(text) => Some(text),
        Err(_) => None,
    }
}

impl RateLimit {
    /// The more restrictive of two snapshots, field by field.
    pub open spec fn merged(self, other: RateLimit) -> RateLimit {
        RateLimit {
            limit: min_u64(self.limit, other.limit),
            remaining: min_u64(self.remaining, other.remaining),
        }
    }

    /// The snapshot that two header texts stand for.
    pub open spec fn of_texts(limit: Option<Seq<char>>, remaining: Option<Seq<char>>) -> RateLimit {
        RateLimit { limit: quota_figure(limit), remaining: quota_figure(remaining) }
    }

    /// Reads a snapshot from the texts of the two quota headers. A header
    /// that is missing or holds no number counts as zero.
    pub fn from_header_texts(limit: Option<&str>, remaining: Option<&str>) -> (snapshot: RateLimit)
        ensures
            snapshot == RateLimit::of_texts(
                match limit {
                    Some(text) => Some(text@),
                    None => None,
                },
                match remaining {
                    Some(text) => Some(text@),
                    None => None,
                },
            ),
    {
        let limit = match limit {
            Some(text) => match parse_u64(text) {
                Some(number) => number,
                None => 0,
            },
            None => 0,
        };
        let remaining = match remaining {
            Some(text) => match parse_u64(text) {
                Some(number) => number,
                None => 0,
            },
            None => 0,
        };
        RateLimit { limit, remaining }
    }

    /// Reads the snapshot that a response carries in its headers
    /// `x-ratelimit-limit` and `x-ratelimit-remaining`.
    pub fn from_headers(headers: &HeaderMap) -> (snapshot: RateLimit)
        ensures
            snapshot == RateLimit::of_texts(
                header_text_of(*headers, LIMIT_HEADER@),
                header_text_of(*headers, REMAINING_HEADER@),
            ),
    {
        let limit = match header_value(headers, LIMIT_HEADER) {
            Some(value) => header_value_text(value),
            None => None,
        };
        let remaining = match header_value(headers, REMAINING_HEADER) {
            Some(value) => header_value_text(value),
            None => None,
        };
        RateLimit::from_header_texts(limit, remaining)
    }

    /// Combines the snapshots of two calls into the worst case of both.
    pub fn join(&self, other: RateLimit) -> (merged: RateLimit)
        ensures
            merged == self.merged(other),
    {
        RateLimit {
            limit: if self.limit <= other.limit {
                self.limit
            } else {
                other.limit
            },
            remaining: if self.remaining <= other.remaining {
                self.remaining
            } else {
                other.remaining
            },
        }
    }

    /// Merging does not depend on the order of the two snapshots.
    pub proof fn lemma_merge_commutative(a: RateLimit, b: RateLimit)
        ensures
            a.merged(b) == b.merged(a),
    {
    }

    /// Merging a snapshot with itself changes nothing.
    pub proof fn lemma_merge_idempotent(a: RateLimit)
        ensures
            a.merged(a) == a,
    {
    }

    /// A merged snapshot allows no more than either of the two.
    pub proof fn lemma_merge_restricts(a: RateLimit, b: RateLimit)
        ensures
            a.merged(b).limit <= a.limit,
            a.merged(b).limit <= b.limit,
            a.merged(b).remaining <= a.remaining,
            a.merged(b).remaining <= b.remaining,
    {
    }
}

/// Why a call of the service failed.
#[derive(Debug)]
pub enum SduiError {
    /// The HTTP client failed: no connection, a refusing status, or a body
    /// that does not decode.
    RequestError(reqwest::Error),
    /// The answer was JSON of another shape than expected.
    JSONError,
    /// The service rejected the credential.
    NotLoggedIn,
    /// The answer to a login held no token.
    LoginError,
}

/// What a call of the service gives: the payload with the quota snapshot of
/// the response, or the reason of the failure.
pub type SduiResult<T> = Result<(T, RateLimit), SduiError>;

/// How the status code of a response is to be taken.
#[derive(Debug, Clone, Copy, PartialEq, Eq, Structural)]
pub enum StatusClass {
    /// A status from 200 to 299: the body is the payload.
    Success,
    /// Status 401: the credential was rejected.
    Unauthorized,
    /// Any other status: the call failed.
    Failure,
}

/// How a status code is to be taken.
pub open spec fn status_class(status: u16) -> StatusClass {
    if status == 401 {
        StatusClass::Unauthorized
    } else if 200 <= status <= 299 {
        StatusClass::Success
    } else {
        StatusClass::Failure
    }
}

/// Decides from the status code of a response how the call went.
pub fn classify_status(status: u16) -> (class: StatusClass)
    ensures
        class == status_class(status),
{
    if status == 401 {
        StatusClass::Unauthorized
    } else if 200 <= status && status <= 299 {
        StatusClass::Success
    } else {
        StatusClass::Failure
    }
}

/// The envelope in which the service wraps every payload.
#[derive(Debug)]
pub struct SduiResponse<T> {
    pub data: T,
    pub status: String,
    pub meta: SduiMeta,
}

/// The envelope around a payload of no fixed shape.
pub type GenericSduiResponse = SduiResponse<JsonValue>;

/// Remarks of the service on a response; their shape is not fixed.
#[derive(Debug)]
pub struct SduiMeta {
    pub warnings: JsonValue,
    pub errors: JsonValue,
    pub success: JsonValue,
}

/// A school, as the search for schools lists it.
#[derive(Debug, Clone, Hash, Eq, PartialEq, PartialOrd, Ord)]
pub struct School {
    id: u64,
    name: String,
    name_alias: Option<String>,
    slink: String,
    uuid: String,
}

/// What a school record holds.
pub struct SchoolView {
    pub id: u64,
    pub name: Seq<char>,
    pub name_alias: Option<Seq<char>>,
    pub slink: Seq<char>,
    pub uuid: Seq<char>,
}

impl View for School {
    type V = SchoolView;

    closed spec fn view(&self) -> SchoolView {
        SchoolView {
            id: self.id,
            name: self.name@,
            name_alias: match self.name_alias {
                Some(alias) => Some(alias@),
                None => None,
            },
            slink: self.slink@,
            uuid: self.uuid@,
        }
    }
}

impl School {
    /// The school that a JSON value describes: an object with a number
    /// `id`, strings `name`, `slink` and `uuid`, and a member `name_alias`,
    /// which is the alias where it is a string.
    pub open spec fn read(value: JsonValue) -> Option<SchoolView> {
        if value.member_number("id"@) is Some && value.member_text("name"@) is Some
            && value.member("name_alias"@) is Some && value.member_text("slink"@) is Some
            && value.member_text("uuid"@) is Some {
            Some(
                SchoolView {
                    id: value.member_number("id"@)->0,
                    name: value.member_text("name"@)->0,
                    name_alias: value.member_text("name_alias"@),
                    slink: value.member_text("slink"@)->0,
                    uuid: value.member_text("uuid"@)->0,
                },
            )
        } else {
            None
        }
    }

    /// A school record of the given contents.
    pub fn new(
        id: u64,
        name: String,
        name_alias: Option<String>,
        slink: String,
        uuid: String,
    ) -> (school: School)
        ensures
            school@ == (SchoolView {
                id,
                name: name@,
                name_alias: match name_alias {
                    Some(alias) => Some(alias@),
                    None => None,
                },
                slink: slink@,
                uuid: uuid@,
            }),
    {
        School { id, name, name_alias, slink, uuid }
    }

    /// Reads a school from a JSON value; `None` where the value does not
    /// describe one.
    pub fn from_value(value: &JsonValue) -> (school: Option<School>)
        ensures
            school is Some == School::read(*value) is Some,
            school matches Some(s) ==> s@ == School::read(*value)->0,
    {
        let id = match value.get_u64("id") {
            Some(id) => id,
            None => {
                return None;
            },
        };
        let name = match value.get_text("name") {
            Some(name) => name,
            None => {
                return None;
            },
        };
        let name_alias = match value.get("name_alias") {
            Some(alias) => match alias.as_str() {
                Some(text) => Some(text.to_owned()),
                None => None,
            },
            None => {
                return None;
            },
        };
        let slink = match value.get_text("slink") {
            Some(slink) => slink,
            None => {
                return None;
            },
        };
        let uuid = match value.get_text("uuid") {
            Some(uuid) => uuid,
            None => {
                return None;
            },
        };
        Some(School { id, name, name_alias, slink, uuid })
    }

    /// The identifier of the school.
    pub fn get_id(&self) -> (id: u64)
        ensures
            id == self@.id,
    {
        self.id
    }

    /// The name of the school.
    pub fn get_name(&self) -> (name: String)
        ensures
            name@ == self@.name,
    {
        self.name.clone()
    }

    /// The name under which the school is also known, if it has one.
    pub fn get_name_alias(&self) -> (alias: Option<String>)
        ensures
            alias is Some == self@.name_alias is Some,
            alias matches Some(text) ==> text@ == self@.name_alias->0,
    {
        match &self.name_alias {
            Some(alias) => Some(alias.clone()),
            None => None,
        }
    }

    /// The short name by which the school is addressed at login.
    pub fn get_slink(&self) -> (slink: String)
        ensures
            slink@ == self@.slink,
    {
        self.slink.clone()
    }

    /// The universally unique identifier of the school.
    pub fn get_uuid(&self) -> (uuid: String)
        ensures
            uuid@ == self@.uuid,
    {
        self.uuid.clone()
    }
}

} // verus!
