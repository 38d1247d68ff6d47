//! DigitalOcean.

use vstd::prelude::*;
use vstd::string::StringExecFns;
use crate::provider_id::ProviderId;
use crate::text::{contains, occurs_in};

verus! {

/// Where the metadata server listens.
pub const METADATA_URI: &'static str = "http://169.254.169.254";

/// The path that is asked of the metadata server.
pub const METADATA_PATH: &'static str = "/metadata/v1.json";

/// The file that names the machine's vendor.
pub const VENDOR_FILE: &'static str = "/sys/class/dmi/id/sys_vendor";

/// The identity that this probe confirms.
pub const IDENTIFIER: ProviderId = ProviderId::DigitalOcean;

/// The probe for DigitalOcean.
pub struct DigitalOcean;

impl DigitalOcean {
    /// The identity that this probe confirms.
    pub fn identifier(&self) -> (id: ProviderId)
        ensures
            id == ProviderId::DigitalOcean,
    {
        IDENTIFIER
    }

    /// The address to ask on the metadata server at `metadata_uri`.
    pub fn metadata_url(&self, metadata_uri: &str) -> (url: String)
        ensures
            url@ == metadata_uri@ + METADATA_PATH@,
    {
        let mut url = String::from_str(metadata_uri);
        url.append(METADATA_PATH);
        url
    }

    /// Whether the reply of the metadata server confirms DigitalOcean.
    /// `droplet_id` is the field `droplet_id` of the reply, `None` where no
    /// reply could be had or it holds no such field. Any identifier above
    /// zero confirms.
    pub fn check_metadata_server(&self, droplet_id: Option<usize>) -> (confirmed: bool)
        ensures
            confirmed == (droplet_id matches Some(id) && id > 0),
    {
        match droplet_id {
            Some(id) => id > 0,
            None => false,
        }
    }

    /// Whether the vendor file confirms DigitalOcean. `content` is what the
    /// file holds, `None` where it is missing or cannot be read.
    pub fn check_vendor_file(&self, content: Option<&str>) -> (confirmed: bool)
        ensures
            confirmed == (content matches Some(text) && occurs_in(text@, "DigitalOcean"@)),
    {
        match content {
            Some(text) => contains(text, "DigitalOcean"),
            None => false,
        }
    }
}

} // verus!
