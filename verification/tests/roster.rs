use cloud_detect::providers::{alibaba, azure, digitalocean, gcp, oci};
use cloud_detect::roster::Roster;
use cloud_detect::{supported_providers, ProviderId};

#[test]
fn test_supported_providers() {
    let providers = supported_providers();
    assert_eq!(providers.len(), 9);
    assert!(providers.contains(&ProviderId::Akamai.to_string()));
    assert!(providers.contains(&alibaba::IDENTIFIER.to_string()));
    assert!(providers.contains(&ProviderId::AWS.to_string()));
    assert!(providers.contains(&azure::IDENTIFIER.to_string()));
    assert!(providers.contains(&digitalocean::IDENTIFIER.to_string()));
    assert!(providers.contains(&gcp::IDENTIFIER.to_string()));
    assert!(providers.contains(&oci::IDENTIFIER.to_string()));
    assert!(providers.contains(&ProviderId::OpenStack.to_string()));
    assert!(providers.contains(&ProviderId::Vultr.to_string()));
}

#[test]
fn supported_providers_lists_the_standard_roster_in_order() {
    assert_eq!(
        supported_providers(),
        vec![
            "akamai",
            "alibaba",
            "aws",
            "azure",
            "digitalocean",
            "gcp",
            "oci",
            "openstack",
            "vultr"
        ]
    );
}

#[test]
fn supported_providers_are_distinct_and_lowercase() {
    let providers = supported_providers();
    for (i, a) in providers.iter().enumerate() {
        assert!(!a.is_empty());
        assert!(a.chars().all(|c| c.is_ascii_lowercase()));
        for b in &providers[i + 1..] {
            assert_ne!(a, b);
        }
    }
}

#[test]
fn supported_providers_is_stable() {
    assert_eq!(supported_providers(), supported_providers());
    assert_eq!(supported_providers(), Roster::standard().names());
}

#[test]
fn the_standard_roster_holds_each_provider_once() {
    let roster = Roster::standard();
    assert_eq!(roster.len(), 9);
    assert!(!roster.is_empty());
    assert_eq!(roster.get(0), Some(ProviderId::Akamai));
    assert_eq!(roster.get(1), Some(ProviderId::Alibaba));
    assert_eq!(roster.get(2), Some(ProviderId::AWS));
    assert_eq!(roster.get(3), Some(ProviderId::Azure));
    assert_eq!(roster.get(4), Some(ProviderId::DigitalOcean));
    assert_eq!(roster.get(5), Some(ProviderId::GCP));
    assert_eq!(roster.get(6), Some(ProviderId::OCI));
    assert_eq!(roster.get(7), Some(ProviderId::OpenStack));
    assert_eq!(roster.get(8), Some(ProviderId::Vultr));
    assert_eq!(roster.get(9), None);
    assert_eq!(roster.get(usize::MAX), None);
    assert!(roster.contains(ProviderId::GCP));
    assert!(roster.contains(ProviderId::AWS));
    assert!(!roster.contains(ProviderId::Unknown));
}

#[test]
fn the_empty_roster_has_no_names() {
    let roster = Roster::new();
    assert_eq!(roster.len(), 0);
    assert!(roster.is_empty());
    assert_eq!(roster.get(0), None);
    assert!(!roster.contains(ProviderId::Alibaba));
    assert_eq!(roster.names(), Vec::<String>::new());
}

#[test]
fn register_keeps_the_order() {
    let roster = Roster::new()
        .register(ProviderId::Vultr)
        .register(ProviderId::AWS)
        .register(ProviderId::Akamai);
    assert_eq!(roster.len(), 3);
    assert_eq!(roster.names(), vec!["vultr", "aws", "akamai"]);
    assert_eq!(roster.get(1), Some(ProviderId::AWS));
}

#[test]
fn register_takes_an_identity_once() {
    let roster = Roster::new()
        .register(ProviderId::AWS)
        .register(ProviderId::OpenStack)
        .register(ProviderId::AWS);
    assert_eq!(roster.len(), 2);
    assert_eq!(roster.names(), vec!["aws", "openstack"]);
    let roster = Roster::standard().register(ProviderId::GCP);
    assert_eq!(roster.len(), 9);
}

#[test]
fn register_never_takes_unknown() {
    let roster = Roster::new().register(ProviderId::Unknown);
    assert!(roster.is_empty());
    let roster = Roster::standard().register(ProviderId::Unknown);
    assert_eq!(roster.len(), 9);
    assert!(!roster.contains(ProviderId::Unknown));
}
