//! The file stores of channels.

use vstd::prelude::*;
use vstd::string::StringExecFns;
use crate::text::{decimal, u64_to_string};

verus! {

/// Address of the cloud with the given identifier.
pub open spec fn cloud_address(id: u64) -> Seq<char> {
    "https://api.sdui.app/v1/users/self/channels/cloud/"@ + decimal(id as nat)
}

/// Address under which the cloud with the given identifier is fetched.
pub fn cloud_url(id: u64) -> (url: String)
    ensures
        url@ == cloud_address(id),
{
    let mut url = "https://api.sdui.app/v1/users/self/channels/cloud/".to_owned();
    url.append(u64_to_string(id).as_str());
    url
}

/// The file store of a channel.
#[derive(Debug, Clone, Hash, Eq, PartialEq, PartialOrd, Ord)]
pub struct Cloud {
    pub can: CloudCan,
    pub disabled_at: Option<String>,
    pub id: u64,
    pub meta: CloudMeta,
    pub updated_at: Option<String>,
}

/// What the user may do in a cloud.
#[derive(Debug, Clone, Hash, Eq, PartialEq, PartialOrd, Ord)]
pub struct CloudCan {
    pub upload: u8,
    pub create_protected_folder: u8,
}

/// Limits and notices of a cloud.
#[derive(Debug, Clone, Hash, Eq, PartialEq, PartialOrd, Ord)]
pub struct CloudMeta {
    pub download: Option<String>,
    pub forbidden: Vec<String>,
    pub max_number: u64,
    pub rename: Option<String>,
    pub upload: Option<String>,
    pub upload_limit: Option<u64>,
}

} // verus!
