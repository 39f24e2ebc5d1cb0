//! News: the addresses of the news feeds and the records of a news entry.

use vstd::prelude::*;
use vstd::string::StringExecFns;
use crate::channel::Attachment;
use crate::text::{decimal, u64_to_string};

verus! {

/// Address of a page of the current user's news feed.
pub open spec fn self_news_address(page: u64) -> Seq<char> {
    "https://api.sdui.app/v1/users/self/feed/news?page="@ + decimal(page as nat)
}

/// Address of a page of a user's news feed.
pub open spec fn news_address(user_id: u64, page: u64) -> Seq<char> {
    "https://api.sdui.app/v1/users/"@ + decimal(user_id as nat) + "/feed/news?page="@ + decimal(
        page as nat,
    )
}

/// Address under which a page of the current user's news feed is fetched.
pub fn self_news_url(page: u64) -> (url: String)
    ensures
        url@ == self_news_address(page),
{
    let mut url = "https://api.sdui.app/v1/users/self/feed/news?page=".to_owned();
    url.append(u64_to_string(page).as_str());
    url
}

/// Address under which a page of a user's news feed is fetched.
pub fn news_url(user_id: u64, page: u64) -> (url: String)
    ensures
        url@ == news_address(user_id, page),
{
    let mut url = "https://api.sdui.app/v1/users/".to_owned();
    url.append(u64_to_string(user_id).as_str());
    url.append("/feed/news?page=");
    url.append(u64_to_string(page).as_str());
    url
}

/// What a news entry shows as its preview: an attachment or a text.
#[derive(Debug, Clone, PartialEq, PartialOrd)]
pub enum NewsPreview {
    Attachment(Attachment),
    String(String),
}

/// Links a news entry to a channel it was posted in.
#[derive(Debug, Clone, PartialEq, PartialOrd)]
pub struct ChannelPivot {
    news_id: u64,
    channel_id: u64,
}

impl ChannelPivot {
    /// The identifier of the news entry.
    pub closed spec fn news(self) -> u64 {
        self.news_id
    }

    /// The identifier of the channel.
    pub closed spec fn channel(self) -> u64 {
        self.channel_id
    }

    /// A link between the news entry and the channel with these identifiers.
    pub fn new(news_id: u64, channel_id: u64) -> (pivot: Self)
        ensures
            pivot.news() == news_id,
            pivot.channel() == channel_id,
    {
        ChannelPivot { news_id, channel_id }
    }

    /// The identifier of the news entry.
    pub fn news_id(&self) -> (id: u64)
        ensures
            id == self.news(),
    {
        self.news_id
    }

    /// The identifier of the channel.
    pub fn channel_id(&self) -> (id: u64)
        ensures
            id == self.channel(),
    {
        self.channel_id
    }
}

/// What the user may do with a news entry.
#[derive(Debug, Clone, PartialEq, PartialOrd)]
pub struct NewsCan {
    pub confirm: u8,
    pub delete: u8,
    pub notify: u8,
    pub pin: u8,
    pub update: u8,
    pub view_statistics: u8,
}

/// State of a news entry for the current user.
#[derive(Debug, Clone, PartialEq, PartialOrd)]
pub struct NewsMeta {
    pub confirm_uri: bool,
    pub csv: String,
    pub is_confirmed: bool,
    pub languages: Vec<String>,
    pub statistics: NewsStatistics,
    pub uri: String,
    pub xls: String,
}

/// How many users have confirmed and read a news entry.
#[derive(Debug, Clone, PartialEq, PartialOrd)]
pub struct NewsStatistics {
    pub confirmed: NewsStatisticsConfirmed,
    pub readby: NewsStatisticsReadBy,
}

/// How many of the addressed users have confirmed.
#[derive(Debug, Clone, PartialEq, PartialOrd)]
pub struct NewsStatisticsConfirmed {
    pub total: u64,
    pub current: u64,
}

/// How many of the addressed users have read.
#[derive(Debug, Clone, PartialEq, PartialOrd)]
pub struct NewsStatisticsReadBy {
    pub total: u64,
    pub current: u64,
}

/// What the user may do with a survey.
#[derive(Debug, Clone, PartialEq, PartialOrd)]
pub struct SurveyCan {
    pub delete: u8,
    pub download: u8,
    pub end: u8,
    pub results: u8,
    pub revoke: u8,
    pub view: u8,
    pub vote: u8,
}

} // verus!
