use cloud_detect::ProviderId;

const ALL: [ProviderId; 10] = [
    ProviderId::Unknown,
    ProviderId::Akamai,
    ProviderId::Alibaba,
    ProviderId::AWS,
    ProviderId::Azure,
    ProviderId::DigitalOcean,
    ProviderId::GCP,
    ProviderId::OCI,
    ProviderId::OpenStack,
    ProviderId::Vultr,
];

#[test]
fn names_are_canonical() {
    assert_eq!(ProviderId::Unknown.to_string(), "unknown");
    assert_eq!(ProviderId::Akamai.to_string(), "akamai");
    assert_eq!(ProviderId::Alibaba.to_string(), "alibaba");
    assert_eq!(ProviderId::AWS.to_string(), "aws");
    assert_eq!(ProviderId::Azure.to_string(), "azure");
    assert_eq!(ProviderId::DigitalOcean.to_string(), "digitalocean");
    assert_eq!(ProviderId::GCP.to_string(), "gcp");
    assert_eq!(ProviderId::OCI.to_string(), "oci");
    assert_eq!(ProviderId::OpenStack.to_string(), "openstack");
    assert_eq!(ProviderId::Vultr.to_string(), "vultr");
}

#[test]
fn as_str_and_to_string_agree() {
    for id in ALL {
        assert_eq!(id.as_str(), id.to_string());
    }
}

#[test]
fn names_are_lowercase_and_not_empty() {
    for id in ALL {
        let name = id.to_string();
        assert!(!name.is_empty());
        assert!(name.chars().all(|c| c.is_ascii_lowercase()), "{name}");
    }
}

#[test]
fn names_tell_identities_apart() {
    for a in ALL {
        for b in ALL {
            assert_eq!(a.to_string() == b.to_string(), a == b);
        }
    }
}

#[test]
fn default_identity_is_unknown() {
    assert_eq!(ProviderId::default(), ProviderId::Unknown);
}
