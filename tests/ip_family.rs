use cluster_api::ip_family::{ip_version_of, IpVersion};
use cluster_api::resources::Cluster;
use cluster_api::{ClusterIPFamily, Error};

fn strings(items: &[&str]) -> Vec<String> {
    items.iter().map(|s| s.to_string()).collect()
}

#[test]
fn classify_single_ipv4_pool() {
    match ClusterIPFamily::new(strings(&["10.0.0.0/16"])) {
        Ok(ClusterIPFamily::IPv4IPFamily(v)) => assert_eq!(v, strings(&["10.0.0.0/16"])),
        other => panic!("unexpected {:?}", other),
    }
}

#[test]
fn classify_empty_is_ipv4() {
    match ClusterIPFamily::new(vec![]) {
        Ok(ClusterIPFamily::IPv4IPFamily(v)) => assert!(v.is_empty()),
        other => panic!("unexpected {:?}", other),
    }
}

#[test]
fn classify_all_ipv4_keeps_order() {
    let input = strings(&["192.168.0.0/24", "10.0.0.1", "0.0.0.0/0"]);
    match ClusterIPFamily::new(input.clone()) {
        Ok(ClusterIPFamily::IPv4IPFamily(v)) => assert_eq!(v, input),
        other => panic!("unexpected {:?}", other),
    }
}

#[test]
fn classify_all_ipv6() {
    let input = strings(&["fd00::/8", "::1", "2001:db8:0:0:0:0:0:1/128"]);
    match ClusterIPFamily::new(input.clone()) {
        Ok(ClusterIPFamily::IPv6IPFamily(v)) => assert_eq!(v, input),
        other => panic!("unexpected {:?}", other),
    }
}

#[test]
fn classify_mixed_is_dual_stack_in_order() {
    let input = strings(&["fd00::/8", "10.0.0.0/16", "::"]);
    match ClusterIPFamily::new(input.clone()) {
        Ok(ClusterIPFamily::DualStackIPFamily(v)) => assert_eq!(v, input),
        other => panic!("unexpected {:?}", other),
    }
}

#[test]
fn classify_malformed_names_first_offender() {
    let input = strings(&["10.0.0.0/16", "not-an-ip", "999.1.1.1"]);
    match ClusterIPFamily::new(input) {
        Err(e) => assert_eq!(e, Error::IPFamilyUnknown("not-an-ip".to_string())),
        Ok(f) => panic!("unexpected {:?}", f),
    }
}

#[test]
fn classify_malformed_alone() {
    for bad in ["", "10.0.0", "10.0.0.0.0", "256.0.0.1", "01.2.3.4", "10.0.0.0/33", "10.0.0.0/",
        "10.0.0.0/016", "1:2:3:4:5:6:7:8:9", "1::2::3", "12345::", "fd00::/129", ":1:2:3:4:5:6:7",
        "1.2.3.4/8/8", "g::1"]
    {
        assert_eq!(
            ClusterIPFamily::new(vec![bad.to_string()]).unwrap_err(),
            Error::IPFamilyUnknown(bad.to_string()),
            "{bad}"
        );
    }
}

#[test]
fn address_versions() {
    assert_eq!(ip_version_of("10.0.0.0/16"), Some(IpVersion::V4));
    assert_eq!(ip_version_of("255.255.255.255/32"), Some(IpVersion::V4));
    assert_eq!(ip_version_of("0.0.0.0"), Some(IpVersion::V4));
    assert_eq!(ip_version_of("::"), Some(IpVersion::V6));
    assert_eq!(ip_version_of("1:2:3:4:5:6:7:8"), Some(IpVersion::V6));
    assert_eq!(ip_version_of("1:2:3:4:5:6:7::"), Some(IpVersion::V6));
    assert_eq!(ip_version_of("::ABCD:ef01/64"), Some(IpVersion::V6));
    assert_eq!(ip_version_of("fe80::1/0"), Some(IpVersion::V6));
    assert_eq!(ip_version_of("1:2:3:4:5:6:7:8::"), None);
    assert_eq!(ip_version_of("::ffff:10.0.0.1"), Some(IpVersion::V6));
    assert_eq!(ip_version_of("::ffff:10.0.0.1/120"), Some(IpVersion::V6));
    assert_eq!(ip_version_of("1:2:3:4:5:6:1.2.3.4"), Some(IpVersion::V6));
    assert_eq!(ip_version_of("1:2:3:4:5:6:7:1.2.3.4"), None);
    assert_eq!(ip_version_of("::1.2.3"), None);
    assert_eq!(ip_version_of("1.2.3.4:5"), None);
    assert_eq!(ip_version_of("1.2.3"), None);
    assert_eq!(ip_version_of("a.b.c.d"), None);
}

#[test]
fn default_family_is_empty_ipv4() {
    match ClusterIPFamily::default() {
        ClusterIPFamily::IPv4IPFamily(v) => assert!(v.is_empty()),
        other => panic!("unexpected {:?}", other),
    }
}

#[test]
fn cluster_network_families() {
    let cluster = Cluster {
        name: "demo".to_string(),
        pod_cidr_blocks: Some(strings(&["10.244.0.0/16", "fd00:10:244::/56"])),
        service_cidr_blocks: None,
        ..Default::default()
    };
    match cluster.get_pod_ip_family() {
        Ok(ClusterIPFamily::DualStackIPFamily(v)) => {
            assert_eq!(v, strings(&["10.244.0.0/16", "fd00:10:244::/56"]))
        }
        other => panic!("unexpected {:?}", other),
    }
    match cluster.get_services_ip_family() {
        Ok(ClusterIPFamily::IPv4IPFamily(v)) => assert!(v.is_empty()),
        other => panic!("unexpected {:?}", other),
    }
    let broken = Cluster {
        service_cidr_blocks: Some(strings(&["10.96.0.0/12", "bogus"])),
        ..Default::default()
    };
    assert_eq!(
        broken.get_services_ip_family().unwrap_err(),
        Error::IPFamilyUnknown("bogus".to_string())
    );
}
