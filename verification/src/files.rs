//! Files: the query for the files of a folder and the records it returns.

use vstd::prelude::*;
use vstd::string::StringExecFns;
use crate::cloud::Cloud;
use crate::text::{decimal, u64_to_string};
use crate::user::PartialSduiUser;

verus! {

/// A query for files, built up step by step.
pub struct FileRequest {
    token: String,
    page: u64,
    parent: Option<File>,
    limit: u64,
    order_direction: OrderDirection,
    order_by: OrderBy,
    search: String,
}

/// What a query for files asks for.
pub struct FileRequestView {
    pub token: Seq<char>,
    pub page: u64,
    pub parent: Option<File>,
    pub limit: u64,
    pub order_direction: OrderDirection,
    pub order_by: OrderBy,
    pub search: Seq<char>,
}

impl View for FileRequest {
    type V = FileRequestView;

    closed spec fn view(&self) -> FileRequestView {
        FileRequestView {
            token: self.token@,
            page: self.page,
            parent: self.parent,
            limit: self.limit,
            order_direction: self.order_direction,
            order_by: self.order_by,
            search: self.search@,
        }
    }
}

/// The direction in which a list of files is ordered.
#[derive(Debug, Clone, Copy, PartialEq, Eq, Structural)]
pub enum OrderDirection {
    ASCENDING,
    DESCENDING,
}

impl OrderDirection {
    /// The word that stands for the direction in a query.
    pub open spec fn label(self) -> Seq<char> {
        match self {
            OrderDirection::ASCENDING => "asc"@,
            OrderDirection::DESCENDING => "desc"@,
        }
    }

    /// The word that stands for the direction in a query.
    pub fn to_string(&self) -> (word: String)
        ensures
            word@ == self.label(),
    {
        match self {
            OrderDirection::ASCENDING => "asc".to_owned(),
            OrderDirection::DESCENDING => "desc".to_owned(),
        }
    }
}

/// What a list of files is ordered by.
#[derive(Debug, Clone, Copy, PartialEq, Eq, Structural)]
pub enum OrderBy {
    NAME,
    SIZE,
    TYPE,
    CREATEDAT,
}

impl OrderBy {
    /// The word that stands for the criterion in a query.
    pub open spec fn label(self) -> Seq<char> {
        match self {
            OrderBy::NAME => "name"@,
            OrderBy::SIZE => "size"@,
            OrderBy::TYPE => "type"@,
            OrderBy::CREATEDAT => "created_at"@,
        }
    }

    /// The word that stands for the criterion in a query.
    pub fn to_string(&self) -> (word: String)
        ensures
            word@ == self.label(),
    {
        match self {
            OrderBy::NAME => "name".to_owned(),
            OrderBy::SIZE => "size".to_owned(),
            OrderBy::TYPE => "type".to_owned(),
            OrderBy::CREATEDAT => "created_at".to_owned(),
        }
    }
}

/// Address of the list of files that a query asks for. The folder is named
/// by its `uuid`; without a folder the name is empty.
pub open spec fn file_list_address(query: FileRequestView) -> Seq<char> {
    "https://api.sdui.app/v1/users/self/channels/chats?file="@ + (match query.parent {
        Some(folder) => folder.uuid@,
        None => Seq::empty(),
    }) + "&order-dir="@ + query.order_direction.label() + "&order-by="@ + query.order_by.label()
        + "&page="@ + decimal(query.page as nat) + "&search="@ + query.search + "&limit="@
        + decimal(query.limit as nat)
}

impl FileRequest {
    /// A query for the first page of ten files at the top level, ordered by
    /// name, ascending.
    pub fn new(token: &str) -> (request: Self)
        ensures
            request@ == (FileRequestView {
                token: token@,
                page: 1,
                parent: None,
                limit: 10,
                order_direction: OrderDirection::ASCENDING,
                order_by: OrderBy::NAME,
                search: Seq::empty(),
            }),
    {
        FileRequest {
            token: token.to_owned(),
            parent: None,
            page: 1,
            limit: 10,
            order_by: OrderBy::NAME,
            order_direction: OrderDirection::ASCENDING,
            search: String::new(),
        }
    }

    /// Asks for the given page of the list; pages count from one.
    pub fn page(self, page: u64) -> (request: Self)
        ensures
            request@ == (FileRequestView { page, ..self@ }),
    {
        let mut request = self;
        request.page = page;
        request
    }

    /// Asks for at most `limit` entries on a page.
    pub fn limit(self, limit: u64) -> (request: Self)
        ensures
            request@ == (FileRequestView { limit, ..self@ }),
    {
        let mut request = self;
        request.limit = limit;
        request
    }

    /// Asks only for entries that match the search text.
    pub fn search(self, search: &str) -> (request: Self)
        ensures
            request@ == (FileRequestView { search: search@, ..self@ }),
    {
        let mut request = self;
        request.search = search.to_owned();
        request
    }

    /// Asks for the files of the folder `parent`.
    pub fn parent(self, parent: File) -> (request: Self)
        ensures
            request@ == (FileRequestView { parent: Some(parent), ..self@ }),
    {
        let mut request = self;
        request.parent = Some(parent);
        request
    }

    /// Says what the list is ordered by.
    pub fn order_by(self, order_by: OrderBy) -> (request: Self)
        ensures
            request@ == (FileRequestView { order_by, ..self@ }),
    {
        let mut request = self;
        request.order_by = order_by;
        request
    }

    /// Says in which direction the list is ordered.
    pub fn order_direction(self, order_direction: OrderDirection) -> (request: Self)
        ensures
            request@ == (FileRequestView { order_direction, ..self@ }),
    {
        let mut request = self;
        request.order_direction = order_direction;
        request
    }

    /// The credential that the query is sent with.
    pub fn token(&self) -> (token: &str)
        ensures
            token@ == self@.token,
    {
        self.token.as_str()
    }

    /// Address under which the query is sent.
    pub fn url(&self) -> (url: String)
        ensures
            url@ == file_list_address(self@),
    {
        let mut url = "https://api.sdui.app/v1/users/self/channels/chats?file=".to_owned();
        match &self.parent {
            Some(folder) => {
                url.append(folder.uuid.as_str());
            },
            None => {},
        }
        url.append("&order-dir=");
        url.append(self.order_direction.to_string().as_str());
        url.append("&order-by=");
        url.append(self.order_by.to_string().as_str());
        url.append("&page=");
        url.append(u64_to_string(self.page).as_str());
        url.append("&search=");
        url.append(self.search.as_str());
        url.append("&limit=");
        url.append(u64_to_string(self.limit).as_str());
        url
    }
}

/// A file or folder in a cloud.
#[derive(Debug, Hash, Eq, PartialEq, PartialOrd, Ord)]
pub struct File {
    pub cloud: Cloud,
    pub cloud_id: u64,
    pub created_at: String,
    pub deleted_at: Option<String>,
    pub description: Option<String>,
    pub disk_id: Option<u64>,
    pub duration_in_seconds: Option<u64>,
    pub expires_at: Option<String>,
    pub extension: Option<String>,
    pub file_type: String,
    pub has_thumbnail: Option<bool>,
    pub hash: Option<String>,
    pub is_collaborative: bool,
    pub is_protected_folder: u8,
    pub meta: FileMeta,
    pub name: String,
    pub parent: Option<Box<File>>,
    pub parent_id: String,
    pub path: String,
    pub referenced_permissions: Option<String>,
    pub referenced_until: Option<String>,
    pub referenced_uuid: Option<String>,
    pub reserved: Option<String>,
    pub size: u64,
    pub mime_type: Option<String>,
    pub updated_at: String,
    pub upload_limited_at: Option<String>,
    pub user: Option<PartialSduiUser>,
    pub user_id: Option<u64>,
    pub uuid: String,
}

/// Addresses and contents summary of a file.
#[derive(Debug, Hash, Eq, PartialEq, PartialOrd, Ord)]
pub struct FileMeta {
    pub absolute_path: String,
    pub content_uri: String,
    pub details_uri: String,
    pub download_uri: String,
    pub edit_access_token: Option<String>,
    pub edit_uri: Option<String>,
    pub files_count: u64,
    pub has_audo: u8,
    pub has_image: u8,
    pub has_text_document: u8,
    pub has_thumbnail: u8,
    pub has_video: u8,
    pub has_wopi_support: u8,
    pub location: String,
    pub parent: Option<Box<File>>,
    pub subtitle: Option<String>,
    pub thumbnail_uri: Option<String>,
    pub uri: String,
    pub username: Option<String>,
}

impl Clone for File {
    fn clone(&self) -> (copy: Self)
        decreases self,
    {
        File {
            cloud: self.cloud.clone(),
            cloud_id: self.cloud_id,
            created_at: self.created_at.clone(),
            deleted_at: self.deleted_at.clone(),
            description: self.description.clone(),
            disk_id: self.disk_id,
            duration_in_seconds: self.duration_in_seconds,
            expires_at: self.expires_at.clone(),
            extension: self.extension.clone(),
            file_type: self.file_type.clone(),
            has_thumbnail: self.has_thumbnail,
            hash: self.hash.clone(),
            is_collaborative: self.is_collaborative,
            is_protected_folder: self.is_protected_folder,
            meta: self.meta.clone(),
            name: self.name.clone(),
            parent: match &self.parent {
                Some(file) => Some(Box::new((**file).clone())),
                None => None,
            },
            parent_id: self.parent_id.clone(),
            path: self.path.clone(),
            referenced_permissions: self.referenced_permissions.clone(),
            referenced_until: self.referenced_until.clone(),
            referenced_uuid: self.referenced_uuid.clone(),
            reserved: self.reserved.clone(),
            size: self.size,
            mime_type: self.mime_type.clone(),
            updated_at: self.updated_at.clone(),
            upload_limited_at: self.upload_limited_at.clone(),
            user: self.user.clone(),
            user_id: self.user_id,
            uuid: self.uuid.clone(),
        }
    }
}

impl Clone for FileMeta {
    fn clone(&self) -> (copy: Self)
        decreases self,
    {
        FileMeta {
            absolute_path: self.absolute_path.clone(),
            content_uri: self.content_uri.clone(),
            details_uri: self.details_uri.clone(),
            download_uri: self.download_uri.clone(),
            edit_access_token: self.edit_access_token.clone(),
            edit_uri: self.edit_uri.clone(),
            files_count: self.files_count,
            has_audo: self.has_audo,
            has_image: self.has_image,
            has_text_document: self.has_text_document,
            has_thumbnail: self.has_thumbnail,
            has_video: self.has_video,
            has_wopi_support: self.has_wopi_support,
            location: self.location.clone(),
            parent: match &self.parent {
                Some(file) => Some(Box::new((**file).clone())),
                None => None,
            },
            subtitle: self.subtitle.clone(),
            thumbnail_uri: self.thumbnail_uri.clone(),
            uri: self.uri.clone(),
            username: self.username.clone(),
        }
    }
}

} // verus!
