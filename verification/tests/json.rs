use sdui::auth::{login_response, schools_from_value, LoginResponse};
use sdui::json::{JsonNumber, JsonValue};
use sdui::prelude::{School, SduiError};

fn text(s: &str) -> JsonValue {
    JsonValue::String(s.to_string())
}

fn number(n: u64) -> JsonValue {
    JsonValue::Number(JsonNumber::PosInt(n))
}

fn object(members: Vec<(&str, JsonValue)>) -> JsonValue {
    JsonValue::Object(members.into_iter().map(|(name, value)| (name.to_string(), value)).collect())
}

fn school(id: u64, name: &str, alias: JsonValue) -> JsonValue {
    object(vec![
        ("id", number(id)),
        ("name", text(name)),
        ("name_alias", alias),
        ("slink", text("peter-school")),
        ("uuid", text("1b9d6bcd-bbfd-4b2d-9b5d-ab8dfbbd4bed")),
    ])
}

#[test]
fn members_are_found_by_name() {
    let value = object(vec![("a", number(1)), ("b", text("two")), ("c", JsonValue::Null)]);
    assert!(matches!(value.get("a"), Some(JsonValue::Number(JsonNumber::PosInt(1)))));
    assert!(matches!(value.get("b"), Some(JsonValue::String(s)) if s == "two"));
    assert!(matches!(value.get("c"), Some(JsonValue::Null)));
    assert!(value.get("d").is_none());
    assert!(value.get("").is_none());
    assert!(text("a").get("a").is_none());
    assert!(JsonValue::Array(vec![number(1)]).get("0").is_none());
}

#[test]
fn the_last_member_of_a_name_counts() {
    let value = object(vec![("a", number(1)), ("b", number(2)), ("a", number(3))]);
    assert_eq!(value.get("a").unwrap().as_u64(), Some(3));
    assert_eq!(value.get_u64("a"), Some(3));
    assert_eq!(value.get_u64("b"), Some(2));
}

#[test]
fn values_are_read_by_their_kind() {
    assert_eq!(number(7).as_u64(), Some(7));
    assert_eq!(JsonValue::Number(JsonNumber::NegInt(-7)).as_u64(), None);
    assert_eq!(JsonValue::Number(JsonNumber::Float("7.0".to_string())).as_u64(), None);
    assert_eq!(text("7").as_u64(), None);
    assert_eq!(text("seven").as_str(), Some("seven"));
    assert_eq!(number(7).as_str(), None);
    assert_eq!(JsonValue::Null.as_str(), None);
    assert_eq!(JsonValue::Bool(true).as_u64(), None);
    assert_eq!(JsonValue::Array(vec![number(1), number(2)]).as_array().unwrap().len(), 2);
    assert!(object(vec![]).as_array().is_none());
    let value = object(vec![("n", number(5)), ("t", text("five"))]);
    assert_eq!(value.get_text("t"), Some("five".to_string()));
    assert_eq!(value.get_text("n"), None);
    assert_eq!(value.get_text("x"), None);
    assert_eq!(value.get_u64("n"), Some(5));
    assert_eq!(value.get_u64("t"), None);
}

#[test]
fn a_school_is_read_from_its_members() {
    let read = School::from_value(&school(12, "Peter School", text("PS"))).unwrap();
    assert_eq!(read.get_id(), 12);
    assert_eq!(read.get_name(), "Peter School");
    assert_eq!(read.get_name_alias(), Some("PS".to_string()));
    assert_eq!(read.get_slink(), "peter-school");
    assert_eq!(read.get_uuid(), "1b9d6bcd-bbfd-4b2d-9b5d-ab8dfbbd4bed");
}

#[test]
fn an_alias_that_is_no_text_is_no_alias() {
    let read = School::from_value(&school(12, "Peter School", JsonValue::Null)).unwrap();
    assert_eq!(read.get_name_alias(), None);
    let read = School::from_value(&school(12, "Peter School", number(3))).unwrap();
    assert_eq!(read.get_name_alias(), None);
}

#[test]
fn a_school_needs_all_its_members() {
    for missing in ["id", "name", "name_alias", "slink", "uuid"] {
        let members = match school(1, "x", text("y")) {
            JsonValue::Object(members) => members,
            _ => unreachable!(),
        };
        let rest = members.into_iter().filter(|(name, _)| name != missing).collect();
        assert!(School::from_value(&JsonValue::Object(rest)).is_none(), "without {}", missing);
    }
    assert!(School::from_value(&JsonValue::Null).is_none());
    assert!(School::from_value(&JsonValue::Array(vec![])).is_none());
    let wrong_id = object(vec![
        ("id", text("12")),
        ("name", text("n")),
        ("name_alias", text("a")),
        ("slink", text("s")),
        ("uuid", text("u")),
    ]);
    assert!(School::from_value(&wrong_id).is_none());
    let wrong_name = object(vec![
        ("id", number(12)),
        ("name", number(1)),
        ("name_alias", text("a")),
        ("slink", text("s")),
        ("uuid", text("u")),
    ]);
    assert!(School::from_value(&wrong_name).is_none());
}

#[test]
fn a_school_is_built_from_its_parts() {
    let built = School::new(3, "n".to_string(), None, "s".to_string(), "u".to_string());
    assert_eq!(built.get_id(), 3);
    assert_eq!(built.get_name(), "n");
    assert_eq!(built.get_name_alias(), None);
    assert_eq!(built.get_slink(), "s");
    assert_eq!(built.get_uuid(), "u");
}

#[test]
fn a_search_lists_the_schools_it_can_read() {
    let data = JsonValue::Array(vec![
        school(1, "first", text("f")),
        text("not a school"),
        school(2, "second", JsonValue::Null),
        object(vec![("id", number(3))]),
        school(4, "fourth", text("4")),
    ]);
    let schools = schools_from_value(&data).unwrap();
    let ids: Vec<u64> = schools.iter().map(|s| s.get_id()).collect();
    assert_eq!(ids, vec![1, 2, 4]);
    assert_eq!(schools[1].get_name(), "second");
    assert!(schools_from_value(&JsonValue::Array(vec![])).unwrap().is_empty());
}

#[test]
fn a_search_answer_that_is_no_list_is_an_error() {
    for data in [JsonValue::Null, object(vec![]), text("[]"), number(0)] {
        assert!(matches!(schools_from_value(&data), Err(SduiError::JSONError)));
    }
}

#[test]
fn a_login_response_is_read_from_its_members() {
    let data = object(vec![("access_token", text("abc.def")), ("expires_in", number(3600))]);
    let response = LoginResponse::from_value(&data).unwrap();
    assert_eq!(response.get_token(), "abc.def");
    assert_eq!(response.get_expires_in(), 3600);
    let response = login_response(&data).unwrap();
    assert_eq!(response.get_token(), "abc.def");
    assert_eq!(response.get_expires_in(), 3600);
}

#[test]
fn a_login_answer_without_token_is_a_login_error() {
    let no_token = object(vec![("expires_in", number(3600))]);
    let no_expiry = object(vec![("access_token", text("abc"))]);
    let wrong_kinds = object(vec![("access_token", number(1)), ("expires_in", text("1"))]);
    for data in [no_token, no_expiry, wrong_kinds, JsonValue::Null] {
        assert!(LoginResponse::from_value(&data).is_none());
        assert!(matches!(login_response(&data), Err(SduiError::LoginError)));
    }
}
