use cluster_api::association::derive_name;
use cluster_api::resources::infrastructure_target;
use cluster_api::container::decimal_string;
use cluster_api::{Error, Mount, PortMapping, RunContainerInput};

#[test]
fn container_name_keeps_prefixed_machine_name() {
    assert_eq!(derive_name("demo", "demo-worker-1"), "demo-worker-1");
    assert_eq!(derive_name("demo", "demo"), "demo");
}

#[test]
fn container_name_prefixes_cluster() {
    assert_eq!(derive_name("demo", "worker-1"), "demo-worker-1");
    assert_eq!(derive_name("demo", "dem"), "demo-dem");
    assert_eq!(derive_name("", "worker"), "worker");
}

#[test]
fn container_name_is_stable() {
    let first = derive_name("demo", "worker-1");
    let second = derive_name("demo", "worker-1");
    assert_eq!(first, second);
    assert_eq!(derive_name("demo", &first), first);
}

#[test]
fn user_string() {
    let mut input = RunContainerInput::default();
    assert_eq!(input.get_user(), "");
    input.group = Some("wheel".to_string());
    assert_eq!(input.get_user(), "");
    input.user = Some("root".to_string());
    assert_eq!(input.get_user(), "root:wheel");
    input.group = None;
    assert_eq!(input.get_user(), "root");
}

#[test]
fn mount_volume_strings() {
    let ro = Mount { source: Some("/lib/modules".into()), target: "/lib/modules".into(), read_only: true };
    let rw = Mount { source: Some("/a".into()), target: "/b".into(), read_only: false };
    let anon = Mount { source: None, target: "/var".into(), read_only: false };
    assert_eq!(ro.to_string(), "/lib/modules:/lib/modules:ro");
    assert_eq!(rw.to_string(), "/a:/b");
    assert_eq!(anon.to_string(), "/var");
    let input = RunContainerInput { mounts: vec![ro, rw, anon], ..Default::default() };
    assert_eq!(input.volumes(), vec!["/lib/modules:/lib/modules:ro", "/a:/b", "/var"]);
}

#[test]
fn decimal_rendering() {
    assert_eq!(decimal_string(0), "0");
    assert_eq!(decimal_string(7), "7");
    assert_eq!(decimal_string(6443), "6443");
    assert_eq!(decimal_string(u64::MAX), u64::MAX.to_string());
}

#[test]
fn canonical_fields_of_empty_spec() {
    let fields = RunContainerInput::default().canonical_fields();
    assert_eq!(fields, vec!["", "", "", "-", "-", "0", "0", "-", "-", "0", "0"]);
}

#[test]
fn canonical_fields_of_full_spec() {
    let input = RunContainerInput {
        image: "img".into(),
        name: "n".into(),
        network: "kind".into(),
        user: Some("u".into()),
        group: None,
        mounts: vec![Mount { source: None, target: "/t".into(), read_only: true }],
        environment_vars: vec![("K".into(), "V".into())],
        command_args: Some(vec!["sh".into()]),
        entrypoint: None,
        labels: vec![("a".into(), "b".into())],
        port_mappings: vec![PortMapping { container_port: 6443, host_port: 30000, protocol: "tcp".into() }],
    };
    assert_eq!(
        input.canonical_fields(),
        vec![
            "img", "n", "kind", "+", "u", "-", "1", "-", "/t", "ro", "1", "K", "V", "+", "1", "sh",
            "-", "1", "a", "b", "1", "6443", "30000", "tcp"
        ]
    );
}

#[test]
fn hash_is_deterministic_and_sensitive() {
    let a = RunContainerInput { name: "demo-worker-1".into(), network: "kind".into(), ..Default::default() };
    let b = a.clone();
    let c = RunContainerInput { name: "demo-worker-2".into(), ..a.clone() };
    let ha = a.get_hash();
    assert_eq!(ha, b.get_hash());
    assert_ne!(ha, c.get_hash());
}

#[test]
fn error_metric_labels() {
    assert_eq!(Error::MachineNotFound.metric_label(), "machinenotfound");
    assert_eq!(Error::IPFamilyUnknown("x".into()).metric_label(), "ipfamilyunknown");
    assert_eq!(Error::ContainerCreateError("boom".into()).metric_label(), "containercreateerror");
}

#[test]
fn infrastructure_reference_mapping() {
    let s = |v: &str| Some(v.to_string());
    let api = "infrastructure.cluster.x-k8s.io/v1beta1";
    assert_eq!(
        infrastructure_target(&s("DockerMachine"), &s(api), &s("dm-1"), &s("ns"), "DockerMachine", api),
        Some(("dm-1".to_string(), "ns".to_string()))
    );
    assert_eq!(
        infrastructure_target(&s("DockerMachine"), &s(api), &s("dm-1"), &None, "DockerMachine", api),
        Some(("dm-1".to_string(), "".to_string()))
    );
    assert_eq!(infrastructure_target(&s("AWSMachine"), &s(api), &s("dm-1"), &None, "DockerMachine", api), None);
    assert_eq!(infrastructure_target(&s("DockerMachine"), &s("v1"), &s("dm-1"), &None, "DockerMachine", api), None);
    assert_eq!(infrastructure_target(&s("DockerMachine"), &s(api), &None, &None, "DockerMachine", api), None);
}
