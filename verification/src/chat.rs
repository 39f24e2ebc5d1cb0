//! Chats: the query for the list of chats and the records it returns.

use vstd::prelude::*;
use vstd::string::StringExecFns;
use crate::cloud::Cloud;
use crate::prelude::School;
use crate::text::{bool_text, bool_to_str, decimal, u64_to_string};

verus! {

/// A query for the chats of the current user, built up step by step.
pub struct ChatRequest {
    token: String,
    page: u64,
    limit: u64,
    with_archived: bool,
    search: String,
}

/// What a query for chats asks for.
pub struct ChatRequestView {
    pub token: Seq<char>,
    pub page: u64,
    pub limit: u64,
    pub with_archived: bool,
    pub search: Seq<char>,
}

impl View for ChatRequest {
    type V = ChatRequestView;

    closed spec fn view(&self) -> ChatRequestView {
        ChatRequestView {
            token: self.token@,
            page: self.page,
            limit: self.limit,
            with_archived: self.with_archived,
            search: self.search@,
        }
    }
}

/// Address of the list of chats that a query asks for.
pub open spec fn chat_list_address(query: ChatRequestView) -> Seq<char> {
    "https://api.sdui.app/v1/users/self/channels/chats?&with_archived="@ + bool_text(
        query.with_archived,
    ) + "&page="@ + decimal(query.page as nat) + "&search="@ + query.search + "&limit="@
        + decimal(query.limit as nat)
}

/// Address of the chat with the given identifier.
pub open spec fn chat_address(id: u64) -> Seq<char> {
    "https://api.sdui.app/v1/channels/"@ + decimal(id as nat)
}

impl ChatRequest {
    /// A query for the first page of ten chats, archived ones left out.
    pub fn new(token: &str) -> (request: Self)
        ensures
            request@ == (ChatRequestView {
                token: token@,
                page: 1,
                limit: 10,
                with_archived: false,
                search: Seq::empty(),
            }),
    {
        ChatRequest {
            token: token.to_owned(),
            page: 1,
            limit: 10,
            with_archived: false,
            search: String::new(),
        }
    }

    /// Asks for the given page of the list; pages count from one.
    pub fn page(self, page: u64) -> (request: Self)
        ensures
            request@ == (ChatRequestView { page, ..self@ }),
    {
        let mut request = self;
        request.page = page;
        request
    }

    /// Asks for at most `limit` entries on a page.
    pub fn limit(self, limit: u64) -> (request: Self)
        ensures
            request@ == (ChatRequestView { limit, ..self@ }),
    {
        let mut request = self;
        request.limit = limit;
        request
    }

    /// Asks only for entries that match the search text.
    pub fn search(self, search: &str) -> (request: Self)
        ensures
            request@ == (ChatRequestView { search: search@, ..self@ }),
    {
        let mut request = self;
        request.search = search.to_owned();
        request
    }

    /// Says whether archived chats are listed too.
    pub fn with_archived(self, with_archived: bool) -> (request: Self)
        ensures
            request@ == (ChatRequestView { with_archived, ..self@ }),
    {
        let mut request = self;
        request.with_archived = with_archived;
        request
    }

    /// The credential that the query is sent with.
    pub fn token(&self) -> (token: &str)
        ensures
            token@ == self@.token,
    {
        self.token.as_str()
    }

    /// Address under which the query is sent.
    pub fn url(&self) -> (url: String)
        ensures
            url@ == chat_list_address(self@),
    {
        let mut url =
            "https://api.sdui.app/v1/users/self/channels/chats?&with_archived=".to_owned();
        url.append(bool_to_str(self.with_archived));
        url.append("&page=");
        url.append(u64_to_string(self.page).as_str());
        url.append("&search=");
        url.append(self.search.as_str());
        url.append("&limit=");
        url.append(u64_to_string(self.limit).as_str());
        url
    }
}

/// Address under which the chat with the given identifier is fetched.
pub fn chat_url(id: u64) -> (url: String)
    ensures
        url@ == chat_address(id),
{
    let mut url = "https://api.sdui.app/v1/channels/".to_owned();
    url.append(u64_to_string(id).as_str());
    url
}

/// A chat channel as the list of chats shows it.
#[derive(Debug, Clone, Hash, Eq, PartialEq, PartialOrd, Ord)]
pub struct Chat {
    pub activity_at: String,
    pub admin_ids: Vec<u64>,
    pub avatar: Option<String>,
    pub calendar_id: u64,
    pub can: ChatCan,
    pub chat: PartialChat,
    pub chat_id: u64,
    pub cloud: Cloud,
    pub cloud_id: u64,
    pub code: String,
    pub color: Option<String>,
    pub content_move_decision_mate_at: Option<String>,
    pub created_at: String,
    pub description: String,
    pub description_members: String,
    pub disabled_by_id: Option<u64>,
    pub expiration_reason: Option<String>,
    pub expires_at: Option<String>,
    pub group: Option<String>,
    pub icon: Option<String>,
    pub id: u64,
    pub intern_id: String,
    pub is_disabled: bool,
    pub is_hidden_memberlist: bool,
    pub is_leavable: bool,
    pub is_public: bool,
    pub is_twoway: bool,
    pub meta: ChatMeta,
    pub name: String,
    pub school: School,
    pub school_id: u64,
    pub subtitle: Option<String>,
    pub target: String,
    pub trashed_at: Option<String>,
    pub twoway_expires_at: Option<String>,
    pub chat_type: String,
    pub updated_at: String,
    pub user_id: Option<u64>,
    pub users_count: u64,
    pub uuid: String,
}

/// What the user may do in a chat, one flag per action.
#[derive(Debug, Clone, Hash, Eq, PartialEq, PartialOrd, Ord)]
pub struct ChatCan {
    pub create_survey: u8,
    pub delete: u8,
    pub delete_message_history: u8,
    pub knock: u8,
    pub leave: u8,
    pub manage_admins: u8,
    pub manage_users: u8,
    pub move_channel_content: u8,
    pub pin: u8,
    pub start_conference: u8,
    pub toggle_memberlist: u8,
    pub toggle_state: u8,
    pub toggle_twoway: u8,
    pub update: u8,
    pub view_users: u8,
    pub voice_memo: u8,
}

/// The chat of a channel, without its messages.
#[derive(Debug, Clone, Hash, Eq, PartialEq, PartialOrd, Ord)]
pub struct PartialChat {
    pub can: PartialChatCan,
    pub disabled_at: Option<String>,
    pub id: u8,
    pub meta: Vec<PartialChatMeta>,
    pub updated_at: String,
}

/// What the user may do in the chat of a channel.
#[derive(Debug, Clone, Hash, Eq, PartialEq, PartialOrd, Ord)]
pub struct PartialChatCan {
    pub post_message: u8,
    pub toggle_oneway: u8,
}

/// Remarks on the chat of a channel; the service sends none.
#[derive(Debug, Clone, Hash, Eq, PartialEq, PartialOrd, Ord)]
pub struct PartialChatMeta {}

/// State of a chat for the current user.
#[derive(Debug, Clone, Hash, Eq, PartialEq, PartialOrd, Ord)]
pub struct ChatMeta {
    pub description: String,
    pub displayname: String,
    pub is_archived: u8,
    pub is_moveable: bool,
    pub is_muted: bool,
    pub is_official: bool,
    pub is_paused: bool,
    pub is_pinned: bool,
    pub is_unread: bool,
    pub languages: Vec<String>,
    pub last_knocked_at: Option<String>,
    pub last_unread_count: u8,
    pub next_possible_knock: NextPossibleKnock,
    pub read_at: String,
    pub shortcut: String,
    pub subtitle: Option<String>,
}

/// When the user may next knock at a chat; the service sends no detail.
#[derive(Debug, Clone, Hash, Eq, PartialEq, PartialOrd, Ord)]
pub struct NextPossibleKnock {}

} // verus!
