//! Provider identities and their canonical names.

use vstd::prelude::*;

verus! {

/// Identifies a cloud service provider.
#[non_exhaustive]
#[derive(Debug, Clone, Copy, PartialEq, Eq, Structural, Hash)]
pub enum ProviderId {
    /// No provider: the default, and the result when no probe matched.
    Unknown,
    /// Akamai Cloud.
    Akamai,
    /// Alibaba Cloud.
    Alibaba,
    /// Amazon Web Services.
    AWS,
    /// Microsoft Azure.
    Azure,
    /// DigitalOcean.
    DigitalOcean,
    /// Google Cloud Platform.
    GCP,
    /// Oracle Cloud Infrastructure.
    OCI,
    /// OpenStack.
    OpenStack,
    /// Vultr.
    Vultr,
}

impl ProviderId {
    /// The canonical name of an identity, as a sequence of characters.
    pub open spec fn name(self) -> Seq<char> {
        match self {
            ProviderId::Unknown => "unknown"@,
            ProviderId::Akamai => "akamai"@,
            ProviderId::Alibaba => "alibaba"@,
            ProviderId::AWS => "aws"@,
            ProviderId::Azure => "azure"@,
            ProviderId::DigitalOcean => "digitalocean"@,
            ProviderId::GCP => "gcp"@,
            ProviderId::OCI => "oci"@,
            ProviderId::OpenStack => "openstack"@,
            ProviderId::Vultr => "vultr"@,
        }
    }

    /// The canonical name of this identity.
    pub fn as_str(&self) -> (s: &'static str)
        ensures
            s@ == self.name(),
    {
        match self {
            ProviderId::Unknown => "unknown",
            ProviderId::Akamai => "akamai",
            ProviderId::Alibaba => "alibaba",
            ProviderId::AWS => "aws",
            ProviderId::Azure => "azure",
            ProviderId::DigitalOcean => "digitalocean",
            ProviderId::GCP => "gcp",
            ProviderId::OCI => "oci",
            ProviderId::OpenStack => "openstack",
            ProviderId::Vultr => "vultr",
        }
    }

    /// The canonical name of this identity, as an owned string.
    pub fn to_string(&self) -> (s: String)
        ensures
            s@ == self.name(),
    {
        self.as_str().to_owned()
    }
}

impl Default for ProviderId {
    /// The default identity is `Unknown`.
    fn default() -> (id: ProviderId)
        ensures
            id == ProviderId::Unknown,
    {
        ProviderId::Unknown
    }
}

/// Whether `c` is a lowercase letter of the basic Latin alphabet.
pub open spec fn is_lowercase_letter(c: char) -> bool {
    'a' <= c && c <= 'z'
}

/// A name is not empty and holds lowercase letters only.
pub proof fn lemma_name_is_lowercase(id: ProviderId)
    ensures
        id.name().len() > 0,
        forall|i: int| 0 <= i < id.name().len() ==> is_lowercase_letter(#[trigger] id.name()[i]),
{
    reveal_strlit("unknown");
    reveal_strlit("akamai");
    reveal_strlit("alibaba");
    reveal_strlit("aws");
    reveal_strlit("azure");
    reveal_strlit("digitalocean");
    reveal_strlit("gcp");
    reveal_strlit("oci");
    reveal_strlit("openstack");
    reveal_strlit("vultr");
}

/// Two identities have the same name only if they are the same identity.
pub proof fn lemma_name_identifies(a: ProviderId, b: ProviderId)
    ensures
        a.name() == b.name() <==> a == b,
{
    reveal_strlit("unknown");
    reveal_strlit("akamai");
    reveal_strlit("alibaba");
    reveal_strlit("aws");
    reveal_strlit("azure");
    reveal_strlit("digitalocean");
    reveal_strlit("gcp");
    reveal_strlit("oci");
    reveal_strlit("openstack");
    reveal_strlit("vultr");
    if a != b && a.name().len() == b.name().len() {
        // Names of one length differ in their first letter.
        assert(a.name()[0] != b.name()[0]);
    }
}

} // verus!
