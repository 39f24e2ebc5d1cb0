use sdui::auth::{search_url, LOGIN_URL};
use sdui::chat::{chat_url, ChatRequest};
use sdui::cloud::{cloud_url, Cloud, CloudCan, CloudMeta};
use sdui::files::{File, FileMeta, FileRequest, OrderBy, OrderDirection};
use sdui::news::{news_url, self_news_url, ChannelPivot};
use sdui::timetable::{timetable_url, Date, LessonKind, TimeKind, TIMES_URL};
use sdui::user::{user_url, SELF_URL};

fn folder(uuid: &str) -> File {
    File {
        cloud: Cloud {
            can: CloudCan { upload: 1, create_protected_folder: 0 },
            disabled_at: None,
            id: 5,
            meta: CloudMeta {
                download: None,
                forbidden: vec![],
                max_number: 100,
                rename: None,
                upload: None,
                upload_limit: None,
            },
            updated_at: None,
        },
        cloud_id: 5,
        created_at: "2022-01-01".to_string(),
        deleted_at: None,
        description: None,
        disk_id: None,
        duration_in_seconds: None,
        expires_at: None,
        extension: None,
        file_type: "folder".to_string(),
        has_thumbnail: None,
        hash: None,
        is_collaborative: false,
        is_protected_folder: 0,
        meta: FileMeta {
            absolute_path: "/".to_string(),
            content_uri: "https://api.sdui.app/v1/content".to_string(),
            details_uri: String::new(),
            download_uri: "https://api.sdui.app/v1/download".to_string(),
            edit_access_token: None,
            edit_uri: None,
            files_count: 0,
            has_audo: 0,
            has_image: 0,
            has_text_document: 0,
            has_thumbnail: 0,
            has_video: 0,
            has_wopi_support: 0,
            location: String::new(),
            parent: None,
            subtitle: None,
            thumbnail_uri: None,
            uri: String::new(),
            username: None,
        },
        name: "folder".to_string(),
        parent: None,
        parent_id: String::new(),
        path: "/".to_string(),
        referenced_permissions: None,
        referenced_until: None,
        referenced_uuid: None,
        reserved: None,
        size: 0,
        mime_type: None,
        updated_at: "2022-01-01".to_string(),
        upload_limited_at: None,
        user: None,
        user_id: None,
        uuid: uuid.to_string(),
    }
}

#[test]
fn a_new_chat_query_asks_for_the_first_ten() {
    let request = ChatRequest::new("secret");
    assert_eq!(request.token(), "secret");
    assert_eq!(
        request.url(),
        "https://api.sdui.app/v1/users/self/channels/chats?&with_archived=false&page=1&search=&limit=10"
    );
}

#[test]
fn a_chat_query_takes_its_settings() {
    let request =
        ChatRequest::new("secret").page(3).limit(25).search("class 9b").with_archived(true);
    assert_eq!(request.token(), "secret");
    assert_eq!(
        request.url(),
        "https://api.sdui.app/v1/users/self/channels/chats?&with_archived=true&page=3&search=class 9b&limit=25"
    );
    let request = ChatRequest::new("t").page(3).page(4);
    assert_eq!(
        request.url(),
        "https://api.sdui.app/v1/users/self/channels/chats?&with_archived=false&page=4&search=&limit=10"
    );
}

#[test]
fn a_new_file_query_asks_for_the_top_level() {
    let request = FileRequest::new("secret");
    assert_eq!(request.token(), "secret");
    assert_eq!(
        request.url(),
        "https://api.sdui.app/v1/users/self/channels/chats?file=&order-dir=asc&order-by=name&page=1&search=&limit=10"
    );
}

#[test]
fn a_file_query_takes_its_settings() {
    let request = FileRequest::new("secret")
        .page(2)
        .limit(50)
        .search("report")
        .parent(folder("f0e1"))
        .order_by(OrderBy::CREATEDAT)
        .order_direction(OrderDirection::DESCENDING);
    assert_eq!(
        request.url(),
        "https://api.sdui.app/v1/users/self/channels/chats?file=f0e1&order-dir=desc&order-by=created_at&page=2&search=report&limit=50"
    );
}

#[test]
fn orderings_have_their_words() {
    assert_eq!(OrderDirection::ASCENDING.to_string(), "asc");
    assert_eq!(OrderDirection::DESCENDING.to_string(), "desc");
    assert_eq!(OrderBy::NAME.to_string(), "name");
    assert_eq!(OrderBy::SIZE.to_string(), "size");
    assert_eq!(OrderBy::TYPE.to_string(), "type");
    assert_eq!(OrderBy::CREATEDAT.to_string(), "created_at");
}

#[test]
fn addresses_name_what_is_fetched() {
    assert_eq!(chat_url(77), "https://api.sdui.app/v1/channels/77");
    assert_eq!(cloud_url(0), "https://api.sdui.app/v1/users/self/channels/cloud/0");
    assert_eq!(cloud_url(1234), "https://api.sdui.app/v1/users/self/channels/cloud/1234");
    assert_eq!(self_news_url(2), "https://api.sdui.app/v1/users/self/feed/news?page=2");
    assert_eq!(news_url(815, 10), "https://api.sdui.app/v1/users/815/feed/news?page=10");
    assert_eq!(user_url(815), "https://api.sdui.app/v1/users/815");
    assert_eq!(SELF_URL, "https://api.sdui.app/v1/users/self");
    assert_eq!(search_url("peter"), "https://api.sdui.app/v1/leads?search=peter");
    assert_eq!(LOGIN_URL, "https://api.sdui.app/v1/auth/login");
    assert_eq!(TIMES_URL, "https://api.sdui.app/v1/timetables/times");
}

#[test]
fn a_timetable_address_carries_both_dates() {
    let begin = Date::new(2, 5, 2022);
    let end = Date::new(13, 11, 2022);
    assert_eq!(begin, Date { day: 2, month: 5, year: 2022 });
    assert_eq!(begin.to_query(), "2022-5-2");
    assert_eq!(end.to_query(), "2022-11-13");
    assert_eq!(Date::new(1, 1, -44).to_query(), "-44-1-1");
    assert_eq!(
        timetable_url("4711", &begin, &end),
        "https://api.sdui.app/v1/timetables/users/4711/timetable?begins_at=2022-5-2&ends_at=2022-11-13"
    );
}

#[test]
fn kinds_of_periods_have_their_names() {
    assert_eq!(TimeKind::BREAK.name(), "BREAK");
    assert_eq!(TimeKind::LESSON.name(), "LESSON");
    assert_eq!(TimeKind::from_name("BREAK"), Some(TimeKind::BREAK));
    assert_eq!(TimeKind::from_name("LESSON"), Some(TimeKind::LESSON));
    assert_eq!(TimeKind::from_name("lesson"), None);
    assert_eq!(TimeKind::from_name(""), None);
    assert_eq!(TimeKind::from_name("LESSONS"), None);
    for kind in [TimeKind::BREAK, TimeKind::LESSON] {
        assert_eq!(TimeKind::from_name(kind.name()), Some(kind));
    }
}

#[test]
fn kinds_of_lessons_have_their_names() {
    assert_eq!(LessonKind::NORMAL.name(), None);
    assert_eq!(LessonKind::SUBSTITUTION.name(), Some("SUBSTITUTION"));
    assert_eq!(LessonKind::CANCLED.name(), Some("CANCLED"));
    assert_eq!(LessonKind::ADDITIONAL.name(), Some("ADDITIONAL"));
    assert_eq!(LessonKind::from_name(None), Some(LessonKind::NORMAL));
    assert_eq!(LessonKind::from_name(Some("SUBSTITUTION")), Some(LessonKind::SUBSTITUTION));
    assert_eq!(LessonKind::from_name(Some("CANCLED")), Some(LessonKind::CANCLED));
    assert_eq!(LessonKind::from_name(Some("ADDITIONAL")), Some(LessonKind::ADDITIONAL));
    assert_eq!(LessonKind::from_name(Some("CANCELLED")), None);
    assert_eq!(LessonKind::from_name(Some("NORMAL")), None);
    assert_eq!(LessonKind::from_name(Some("")), None);
    for kind in
        [LessonKind::NORMAL, LessonKind::SUBSTITUTION, LessonKind::CANCLED, LessonKind::ADDITIONAL]
    {
        assert_eq!(LessonKind::from_name(kind.name()), Some(kind));
    }
}

#[test]
fn a_pivot_links_news_and_channel() {
    let pivot = ChannelPivot::new(4, 9);
    assert_eq!(pivot.news_id(), 4);
    assert_eq!(pivot.channel_id(), 9);
}

#[test]
fn a_folder_can_be_copied() {
    let mut inner = folder("inner");
    inner.parent = Some(Box::new(folder("outer")));
    inner.meta.parent = Some(Box::new(folder("outer")));
    let copy = inner.clone();
    assert_eq!(copy, inner);
    assert_eq!(copy.parent.unwrap().uuid, "outer");
}
