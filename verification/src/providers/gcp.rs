//! Google Cloud Platform.

use vstd::prelude::*;
use vstd::string::StringExecFns;
use crate::provider_id::ProviderId;
use crate::text::{contains, occurs_in};

verus! {

/// Where the metadata server listens.
pub const METADATA_URI: &'static str = "http://metadata.google.internal";

/// The path that is asked of the metadata server.
pub const METADATA_PATH: &'static str = "/computeMetadata/v1/instance/tags";

/// The header that the metadata server asks for.
pub const METADATA_HEADER_NAME: &'static str = "Metadata-Flavor";

/// The value of that header.
pub const METADATA_HEADER_VALUE: &'static str = "Google";

/// The file that names the machine's product.
pub const VENDOR_FILE: &'static str = "/sys/class/dmi/id/product_name";

/// The identity that this probe confirms.
pub const IDENTIFIER: ProviderId = ProviderId::GCP;

/// Whether an HTTP status code reports success: 200 to 299.
pub open spec fn is_success(status: u16) -> bool {
    200 <= status < 300
}

/// The probe for Google Cloud Platform.
pub struct Gcp;

impl Gcp {
    /// The identity that this probe confirms.
    pub fn identifier(&self) -> (id: ProviderId)
        ensures
            id == ProviderId::GCP,
    {
        IDENTIFIER
    }

    /// The address to ask on the metadata server at `metadata_uri`.
    pub fn metadata_url(&self, metadata_uri: &str) -> (url: String)
        ensures
            url@ == metadata_uri@ + METADATA_PATH@,
    {
        let mut url = String::from_str(metadata_uri);
        url.append(METADATA_PATH);
        url
    }

    /// Whether the reply of the metadata server confirms Google Cloud
    /// Platform. `status` is the status code of the reply, `None` where no
    /// reply could be had. Any reply that reports success confirms.
    pub fn check_metadata_server(&self, status: Option<u16>) -> (confirmed: bool)
        ensures
            confirmed == (status matches Some(code) && is_success(code)),
    {
        match status {
            Some(code) => 200 <= code && code < 300,
            None => false,
        }
    }

    /// Whether the vendor file confirms Google Cloud Platform. `content` is
    /// what the file holds, `None` where it is missing or cannot be read.
    pub fn check_vendor_file(&self, content: Option<&str>) -> (confirmed: bool)
        ensures
            confirmed == (content matches Some(text) && occurs_in(text@, "Google"@)),
    {
        match content {
            Some(text) => contains(text, "Google"),
            None => false,
        }
    }
}

} // verus!
