//! Oracle Cloud Infrastructure.

use vstd::prelude::*;
use vstd::string::StringExecFns;
use crate::provider_id::ProviderId;
use crate::text::{contains, occurs_in};

verus! {

/// Where the metadata server listens.
pub const METADATA_URI: &'static str = "http://169.254.169.254";

/// The path that is asked of the metadata server.
pub const METADATA_PATH: &'static str = "/opc/v1/instance/metadata/";

/// The file that holds the asset tag of the machine's chassis.
pub const VENDOR_FILE: &'static str = "/sys/class/dmi/id/chassis_asset_tag";

/// The identity that this probe confirms.
pub const IDENTIFIER: ProviderId = ProviderId::OCI;

/// The probe for Oracle Cloud Infrastructure.
pub struct Oci;

impl Oci {
    /// The identity that this probe confirms.
    pub fn identifier(&self) -> (id: ProviderId)
        ensures
            id == ProviderId::OCI,
    {
        IDENTIFIER
    }

    /// The address to ask on the metadata server at `metadata_uri`.
    pub fn metadata_url(&self, metadata_uri: &str) -> (url: String)
        ensures
            url@ == metadata_uri@ + METADATA_PATH@,
    {
        let mut url = String::from_str(metadata_uri);
        url.append(METADATA_PATH);
        url
    }

    /// Whether the reply of the metadata server confirms Oracle Cloud
    /// Infrastructure. `oke_tm` is the field `oke-tm` of the reply, `None`
    /// where no reply could be had or it holds no such field.
    pub fn check_metadata_server(&self, oke_tm: Option<&str>) -> (confirmed: bool)
        ensures
            confirmed == (oke_tm matches Some(text) && occurs_in(text@, "oke"@)),
    {
        match oke_tm {
            Some(text) => contains(text, "oke"),
            None => false,
        }
    }

    /// Whether the vendor file confirms Oracle Cloud Infrastructure.
    /// `content` is what the file holds, `None` where it is missing or cannot
    /// be read.
    pub fn check_vendor_file(&self, content: Option<&str>) -> (confirmed: bool)
        ensures
            confirmed == (content matches Some(text) && occurs_in(text@, "OracleCloud"@)),
    {
        match content {
            Some(text) => contains(text, "OracleCloud"),
            None => false,
        }
    }
}

} // verus!
