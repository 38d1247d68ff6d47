//! Microsoft Azure.

use vstd::prelude::*;
use vstd::string::StringExecFns;
use crate::provider_id::ProviderId;
use crate::text::{contains, occurs_in};

verus! {

/// Where the metadata server listens.
pub const METADATA_URI: &'static str = "http://169.254.169.254";

/// The path that is asked of the metadata server.
pub const METADATA_PATH: &'static str = "/metadata/instance?api-version=2017-12-01";

/// The header that the metadata server asks for.
pub const METADATA_HEADER_NAME: &'static str = "Metadata";

/// The value of that header.
pub const METADATA_HEADER_VALUE: &'static str = "true";

/// The file that names the machine's vendor.
pub const VENDOR_FILE: &'static str = "/sys/class/dmi/id/sys_vendor";

/// The identity that this probe confirms.
pub const IDENTIFIER: ProviderId = ProviderId::Azure;

/// The probe for Microsoft Azure.
pub struct Azure;

impl Azure {
    /// The identity that this probe confirms.
    pub fn identifier(&self) -> (id: ProviderId)
        ensures
            id == ProviderId::Azure,
    {
        IDENTIFIER
    }

    /// The address to ask on the metadata server at `metadata_uri`.
    pub fn metadata_url(&self, metadata_uri: &str) -> (url: String)
        ensures
            url@ == metadata_uri@ + METADATA_PATH@,
    {
        let mut url = String::from_str(metadata_uri);
        url.append(METADATA_PATH);
        url
    }

    /// Whether the reply of the metadata server confirms Azure. `vm_id` is
    /// the machine's identifier in the reply, the field `vmId` of its object
    /// `compute`; `None` where no reply could be had or it holds no such
    /// field. Any identifier but the empty one confirms.
    pub fn check_metadata_server(&self, vm_id: Option<&str>) -> (confirmed: bool)
        ensures
            confirmed == (vm_id matches Some(text) && text@.len() > 0),
    {
        match vm_id {
            Some(text) => !text.is_empty(),
            None => false,
        }
    }

    /// Whether the vendor file confirms Azure. `content` is what the file
    /// holds, `None` where it is missing or cannot be read.
    pub fn check_vendor_file(&self, content: Option<&str>) -> (confirmed: bool)
        ensures
            confirmed == (content matches Some(text) && occurs_in(
                text@,
                "Microsoft Corporation"@,
            )),
    {
        match content {
            Some(text) => contains(text, "Microsoft Corporation"),
            None => false,
        }
    }
}

} // verus!
