//! Alibaba Cloud.

use vstd::prelude::*;
use vstd::string::StringExecFns;
use crate::provider_id::ProviderId;
use crate::text::{contains, occurs_in};

verus! {

/// Where the metadata server listens.
pub const METADATA_URI: &'static str = "http://100.100.100.200";

/// The path that is asked of the metadata server.
pub const METADATA_PATH: &'static str =
    "/latest/meta-data/latest/meta-data/instance/virtualization-solution";

/// The file that names the machine's product.
pub const VENDOR_FILE: &'static str = "/sys/class/dmi/id/product_name";

/// The identity that this probe confirms.
pub const IDENTIFIER: ProviderId = ProviderId::Alibaba;

/// The probe for Alibaba Cloud.
pub struct Alibaba;

impl Alibaba {
    /// The identity that this probe confirms.
    pub fn identifier(&self) -> (id: ProviderId)
        ensures
            id == ProviderId::Alibaba,
    {
        IDENTIFIER
    }

    /// The address to ask on the metadata server at `metadata_uri`.
    pub fn metadata_url(&self, metadata_uri: &str) -> (url: String)
        ensures
            url@ == metadata_uri@ + METADATA_PATH@,
    {
        let mut url = String::from_str(metadata_uri);
        url.append(METADATA_PATH);
        url
    }

    /// Whether the reply of the metadata server confirms Alibaba Cloud.
    /// `body` is the text of the reply, `None` where none could be had.
    pub fn check_metadata_server(&self, body: Option<&str>) -> (confirmed: bool)
        ensures
            confirmed == (body matches Some(text) && occurs_in(text@, "ECS Virt"@)),
    {
        match body {
            Some(text) => contains(text, "ECS Virt"),
            None => false,
        }
    }

    /// Whether the vendor file confirms Alibaba Cloud. `content` is what the
    /// file holds, `None` where it is missing or cannot be read.
    pub fn check_vendor_file(&self, content: Option<&str>) -> (confirmed: bool)
        ensures
            confirmed == (content matches Some(text) && occurs_in(text@, "Alibaba Cloud ECS"@)),
    {
        match content {
            Some(text) => contains(text, "Alibaba Cloud ECS"),
            None => false,
        }
    }
}

} // verus!
