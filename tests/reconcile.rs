use cluster_api::controller::Stage;
use cluster_api::resources::{Cluster, DockerMachine, Machine, OwnerReference};
use cluster_api::runtime::ContainerSummary;
use cluster_api::{Action, Association, Command, Error, Event, MachineRole, Reconciliation};

const REQUEUE: Action = Action::Requeue(300);

fn docker_machine(name: &str, owner: Option<&str>) -> DockerMachine {
    DockerMachine {
        name: name.to_string(),
        namespace: Some("default".to_string()),
        owner_references: owner
            .map(|o| vec![OwnerReference { kind: "Machine".to_string(), name: o.to_string() }])
            .unwrap_or_default(),
        provider_id: None,
        custom_image: None,
    }
}

fn machine(name: &str, control_plane: bool, bootstrap: bool) -> Machine {
    let mut labels = vec![("cluster.x-k8s.io/cluster-name".to_string(), "demo".to_string())];
    if control_plane {
        labels.push(("cluster.x-k8s.io/control-plane".to_string(), "".to_string()));
    }
    Machine {
        name: name.to_string(),
        namespace: Some("default".to_string()),
        labels,
        version: None,
        bootstrap_data_secret_name: if bootstrap { Some(format!("{name}-bootstrap")) } else { None },
    }
}

fn cluster(ready: Option<bool>) -> Cluster {
    Cluster {
        name: "demo".to_string(),
        namespace: Some("default".to_string()),
        pod_cidr_blocks: Some(vec!["10.0.0.0/16".to_string()]),
        service_cidr_blocks: None,
        infrastructure_ref_name: Some("demo-docker".to_string()),
        infrastructure_ready: ready,
    }
}

fn listed(name: &str, id: &str) -> ContainerSummary {
    ContainerSummary {
        id: Some(id.to_string()),
        names: Some(vec![format!("/{name}")]),
        image: Some("kindest/node:v1.27.3".to_string()),
        status: Some("Up 2 minutes".to_string()),
        labels: vec![],
        address: Some("172.18.0.2".to_string()),
    }
}

/// Drives a reconciliation up to the listing of containers.
fn up_to_listing(dm: DockerMachine, m: Machine, c: Cluster, deleting: bool) -> (Reconciliation, Command) {
    let (rec, cmd) = Reconciliation::start(dm, deleting);
    assert!(matches!(cmd, Command::FetchOwner { .. }));
    let (rec, cmd) = rec.advance(Event::OwnerFetched(Ok(Some(m))));
    match &cmd {
        Command::FetchCluster { namespace, name } => {
            assert_eq!(namespace, "default");
            assert_eq!(name, "demo");
        }
        other => panic!("unexpected {:?}", other),
    }
    let (rec, cmd) = rec.advance(Event::ClusterFetched(Ok(c)));
    match &cmd {
        Command::FetchDockerCluster { name, .. } => assert_eq!(name, "demo-docker"),
        other => panic!("unexpected {:?}", other),
    }
    rec.advance(Event::DockerClusterFetched(true))
}

fn finished_with(cmd: Command) -> Result<Action, Error> {
    match cmd {
        Command::Finish(outcome) => outcome,
        other => panic!("expected the pass to finish, got {:?}", other),
    }
}

#[test]
fn worker_scenario_creates_default_image_container() {
    let (rec, cmd) = up_to_listing(
        docker_machine("demo-worker-1", Some("worker-1")),
        machine("worker-1", false, true),
        cluster(Some(true)),
        false,
    );
    let filters = match cmd {
        Command::ListContainers { filters } => filters,
        other => panic!("unexpected {:?}", other),
    };
    assert_eq!(
        filters,
        vec![
            ("io.x-k8s.kind.cluster".to_string(), "demo".to_string()),
            ("io.x-k8s.kind.role".to_string(), "worker".to_string()),
        ]
    );
    let (rec, cmd) = rec.advance(Event::ContainersListed(Ok(vec![])));
    let input = match cmd {
        Command::StartContainer { input } => input,
        other => panic!("unexpected {:?}", other),
    };
    assert_eq!(input.image, "kindest/node:v1.27.3");
    assert_eq!(input.name, "demo-worker-1");
    assert_eq!(input.network, "kind");
    assert!(input.port_mappings.is_empty());
    let keys: Vec<&str> = input.labels.iter().map(|(k, _)| k.as_str()).collect();
    assert_eq!(keys, vec!["io.x-k8s.container-hash", "io.x-k8s.kind.cluster", "io.x-k8s.kind.role"]);
    assert_eq!(input.labels[1..].to_vec(), filters);
    assert_eq!(input.mounts.len(), 5);
    let (rec, cmd) = rec.advance(Event::ContainerStarted(Ok("abc123".to_string())));
    match cmd {
        Command::Exec { id, command } => {
            assert_eq!(id, "abc123");
            assert_eq!(command, vec!["crictl", "ps"]);
        }
        other => panic!("unexpected {:?}", other),
    }
    let (rec, cmd) = rec.advance(Event::Executed(Ok(())));
    assert_eq!(finished_with(cmd), Ok(REQUEUE));
    assert!(matches!(rec.stage, Stage::Finished));
}

#[test]
fn control_plane_scenario_maps_api_server_port() {
    let (rec, cmd) = up_to_listing(
        docker_machine("demo-cp-1", Some("demo-cp-1")),
        machine("demo-cp-1", true, true),
        cluster(Some(true)),
        false,
    );
    match &cmd {
        Command::ListContainers { filters } => assert_eq!(filters[1].1, "control-plane"),
        other => panic!("unexpected {:?}", other),
    }
    let (rec, cmd) = rec.advance(Event::ContainersListed(Ok(vec![])));
    assert!(matches!(cmd, Command::ReservePort));
    let (_, cmd) = rec.advance(Event::PortReserved(Ok(41234)));
    let input = match cmd {
        Command::StartContainer { input } => input,
        other => panic!("unexpected {:?}", other),
    };
    assert_eq!(input.name, "demo-cp-1");
    assert_eq!(input.port_mappings.len(), 1);
    assert_eq!(input.port_mappings[0].container_port, 6443);
    assert_eq!(input.port_mappings[0].host_port, 41234);
    assert_eq!(input.port_mappings[0].protocol, "tcp");
}

#[test]
fn control_plane_does_not_wait_for_bootstrap_data() {
    let (_, cmd) = up_to_listing(
        docker_machine("demo-cp-1", Some("demo-cp-1")),
        machine("demo-cp-1", true, false),
        cluster(Some(true)),
        false,
    );
    assert!(matches!(cmd, Command::ListContainers { .. }));
}

#[test]
fn worker_waits_for_bootstrap_data() {
    let (_, cmd) = up_to_listing(
        docker_machine("demo-worker-1", Some("worker-1")),
        machine("worker-1", false, false),
        cluster(Some(true)),
        false,
    );
    assert_eq!(finished_with(cmd), Ok(REQUEUE));
}

#[test]
fn second_create_is_a_no_op() {
    let (rec, _) = up_to_listing(
        docker_machine("demo-worker-1", Some("worker-1")),
        machine("worker-1", false, true),
        cluster(Some(true)),
        false,
    );
    let (_, cmd) = rec.advance(Event::ContainersListed(Ok(vec![
        listed("other", "x"),
        listed("demo-worker-1", "abc123"),
    ])));
    assert_eq!(finished_with(cmd), Ok(REQUEUE));
}

#[test]
fn similar_name_does_not_count_as_existing() {
    let (rec, _) = up_to_listing(
        docker_machine("demo-worker-1", Some("worker-1")),
        machine("worker-1", false, true),
        cluster(Some(true)),
        false,
    );
    let (_, cmd) = rec.advance(Event::ContainersListed(Ok(vec![listed("demo-worker-10", "x")])));
    assert!(matches!(cmd, Command::StartContainer { .. }));
}

#[test]
fn no_owner_reference_requeues_without_runtime_call() {
    let (rec, cmd) = Reconciliation::start(docker_machine("demo-worker-1", None), false);
    assert_eq!(finished_with(cmd), Ok(REQUEUE));
    assert!(matches!(rec.stage, Stage::Finished));
    let mut other_owner = docker_machine("demo-worker-1", None);
    other_owner.owner_references.push(OwnerReference { kind: "MachineSet".into(), name: "ms".into() });
    let (_, cmd) = Reconciliation::start(other_owner, true);
    assert_eq!(finished_with(cmd), Ok(REQUEUE));
}

#[test]
fn owner_lookup_outcomes() {
    let (rec, _) = Reconciliation::start(docker_machine("dm", Some("m")), false);
    let (_, cmd) = rec.advance(Event::OwnerFetched(Ok(None)));
    assert_eq!(finished_with(cmd), Ok(REQUEUE));
    let (rec, _) = Reconciliation::start(docker_machine("dm", Some("m")), false);
    let (_, cmd) = rec.advance(Event::OwnerFetched(Err("forbidden".into())));
    assert_eq!(finished_with(cmd), Err(Error::KubeError("forbidden".into())));
    let (rec, _) = Reconciliation::start(docker_machine("dm", Some("m")), false);
    let mut unlabelled = machine("m", false, true);
    unlabelled.labels.clear();
    let (_, cmd) = rec.advance(Event::OwnerFetched(Ok(Some(unlabelled))));
    assert_eq!(finished_with(cmd), Ok(REQUEUE));
}

#[test]
fn cluster_lookup_outcomes() {
    let (rec, _) = Reconciliation::start(docker_machine("dm", Some("m")), false);
    let (rec, _) = rec.advance(Event::OwnerFetched(Ok(Some(machine("m", false, true)))));
    let (_, cmd) = rec.advance(Event::ClusterFetched(Err("timeout".into())));
    assert_eq!(finished_with(cmd), Err(Error::KubeError("timeout".into())));
    let (rec, _) = Reconciliation::start(docker_machine("dm", Some("m")), false);
    let (rec, _) = rec.advance(Event::OwnerFetched(Ok(Some(machine("m", false, true)))));
    let (rec, _) = rec.advance(Event::ClusterFetched(Ok(cluster(Some(true)))));
    let (rec, cmd) = rec.advance(Event::DockerClusterFetched(false));
    assert_eq!(finished_with(cmd), Ok(REQUEUE));
    assert!(matches!(rec.stage, Stage::Finished));
    let (rec, _) = Reconciliation::start(docker_machine("dm", Some("m")), true);
    let (rec, _) = rec.advance(Event::OwnerFetched(Ok(Some(machine("m", false, true)))));
    let mut no_ref = cluster(Some(true));
    no_ref.infrastructure_ref_name = None;
    let (_, cmd) = rec.advance(Event::ClusterFetched(Ok(no_ref)));
    assert_eq!(finished_with(cmd), Ok(REQUEUE));
}

#[test]
fn infrastructure_not_ready_requeues() {
    for ready in [None, Some(false)] {
        let (rec, cmd) = up_to_listing(
            docker_machine("demo-worker-1", Some("worker-1")),
            machine("worker-1", false, true),
            cluster(ready),
            false,
        );
        assert_eq!(finished_with(cmd), Ok(REQUEUE));
        assert!(matches!(rec.stage, Stage::Finished));
    }
}

#[test]
fn provisioned_machine_refreshes_address_first() {
    let mut dm = docker_machine("demo-worker-1", Some("worker-1"));
    dm.provider_id = Some("docker:////demo-worker-1".into());
    let (rec, cmd) = up_to_listing(dm, machine("worker-1", false, true), cluster(Some(true)), false);
    assert!(matches!(cmd, Command::ListContainers { .. }));
    assert!(matches!(rec.stage, Stage::AwaitAddress { .. }));
    let (rec, cmd) = rec.advance(Event::ContainersListed(Ok(vec![listed("demo-worker-1", "a")])));
    assert!(matches!(cmd, Command::ListContainers { .. }));
    assert!(matches!(rec.stage, Stage::AwaitCreateListing { .. }));
    let (_, cmd) = rec.advance(Event::ContainersListed(Err("daemon down".into())));
    assert_eq!(finished_with(cmd), Err(Error::ContainerError("daemon down".into())));
}

#[test]
fn delete_without_container_succeeds() {
    let (rec, cmd) = up_to_listing(
        docker_machine("demo-worker-1", Some("worker-1")),
        machine("worker-1", false, true),
        cluster(None),
        true,
    );
    assert!(matches!(cmd, Command::ListContainers { .. }));
    let (_, cmd) = rec.advance(Event::ContainersListed(Ok(vec![listed("other", "x")])));
    assert_eq!(finished_with(cmd), Ok(REQUEUE));
}

#[test]
fn delete_removes_matching_container() {
    let (rec, _) = up_to_listing(
        docker_machine("demo-worker-1", Some("worker-1")),
        machine("worker-1", false, true),
        cluster(Some(true)),
        true,
    );
    let (rec, cmd) = rec.advance(Event::ContainersListed(Ok(vec![listed("demo-worker-1", "abc123")])));
    match cmd {
        Command::RemoveContainer { id } => assert_eq!(id, "abc123"),
        other => panic!("unexpected {:?}", other),
    }
    let (_, cmd) = rec.advance(Event::ContainerRemoved(Ok("abc123".into())));
    assert_eq!(finished_with(cmd), Ok(REQUEUE));
}

#[test]
fn runtime_failures_are_reported() {
    let (rec, _) = up_to_listing(
        docker_machine("demo-worker-1", Some("worker-1")),
        machine("worker-1", false, true),
        cluster(Some(true)),
        false,
    );
    let (rec, _) = rec.advance(Event::ContainersListed(Ok(vec![])));
    let (_, cmd) = rec.advance(Event::ContainerStarted(Err("no such image".into())));
    assert_eq!(finished_with(cmd), Err(Error::ContainerCreateError("no such image".into())));

    let (rec, _) = up_to_listing(
        docker_machine("demo-cp-1", Some("demo-cp-1")),
        machine("demo-cp-1", true, true),
        cluster(Some(true)),
        false,
    );
    let (rec, _) = rec.advance(Event::ContainersListed(Ok(vec![])));
    let (_, cmd) = rec.advance(Event::PortReserved(Err("bind failed".into())));
    assert_eq!(finished_with(cmd), Err(Error::PortLookupError("bind failed".into())));

    let (rec, _) = up_to_listing(
        docker_machine("demo-worker-1", Some("worker-1")),
        machine("worker-1", false, true),
        cluster(Some(true)),
        false,
    );
    let (rec, _) = rec.advance(Event::ContainersListed(Ok(vec![])));
    let (rec, _) = rec.advance(Event::ContainerStarted(Ok("id".into())));
    let (_, cmd) = rec.advance(Event::Executed(Err("exec failed".into())));
    assert_eq!(finished_with(cmd), Err(Error::ContainerError("exec failed".into())));

    let (rec, _) = up_to_listing(
        docker_machine("demo-worker-1", Some("worker-1")),
        machine("worker-1", false, true),
        cluster(Some(true)),
        true,
    );
    let (rec, _) = rec.advance(Event::ContainersListed(Ok(vec![listed("demo-worker-1", "id")])));
    let (_, cmd) = rec.advance(Event::ContainerRemoved(Err("in use".into())));
    assert_eq!(finished_with(cmd), Err(Error::ContainerRemoveError("in use".into())));
}

#[test]
fn zero_port_is_refused() {
    let (rec, _) = up_to_listing(
        docker_machine("demo-cp-1", Some("demo-cp-1")),
        machine("demo-cp-1", true, true),
        cluster(Some(true)),
        false,
    );
    let (rec, _) = rec.advance(Event::ContainersListed(Ok(vec![])));
    let (rec, cmd) = rec.advance(Event::PortReserved(Ok(0)));
    assert!(matches!(finished_with(cmd), Err(Error::PortLookupError(_))));
    assert!(matches!(rec.stage, Stage::Finished));
}

#[test]
fn unexpected_event_ends_the_pass() {
    let (rec, _) = Reconciliation::start(docker_machine("dm", Some("m")), false);
    let (rec, cmd) = rec.advance(Event::Executed(Ok(())));
    assert_eq!(finished_with(cmd), Err(Error::UnexpectedEvent));
    let (_, cmd) = rec.advance(Event::OwnerFetched(Ok(None)));
    assert_eq!(finished_with(cmd), Err(Error::UnexpectedEvent));
}

#[test]
fn image_selection() {
    let mut m = machine("worker-1", false, true);
    let a = Association::new(cluster(Some(true)), m.clone(), None);
    assert_eq!(a.get_image(), "kindest/node:v1.27.3");
    m.version = Some("1.28.0".into());
    let a = Association::new(cluster(Some(true)), m.clone(), None);
    assert_eq!(a.get_image(), "kindest/node:v1.28.0");
    m.version = Some("v1.29.1".into());
    let a = Association::new(cluster(Some(true)), m.clone(), None);
    assert_eq!(a.get_image(), "kindest/node:v1.29.1");
    let a = Association::new(cluster(Some(true)), m, Some("my/node:dev".into()));
    assert_eq!(a.get_image(), "my/node:dev");
}

#[test]
fn standard_mounts_and_bootstrap_gate() {
    let a = Association::new(cluster(Some(true)), machine("worker-1", false, false), None);
    let volumes: Vec<String> = a.generate_mount_info().iter().map(|m| m.to_string()).collect();
    assert_eq!(
        volumes,
        vec!["/lib/modules:/lib/modules:ro", "/var/run/docker.sock:/var/run/docker.sock", "/var", "/tmp", "/run"]
    );
    assert_eq!(a.prepare_bootstrap(), Err(Error::BootstrapSecretNotReady));
    let b = Association::new(cluster(Some(true)), machine("worker-1", false, true), None);
    assert_eq!(b.prepare_bootstrap(), Ok(()));
}

#[test]
fn container_lookup_by_name() {
    let a = Association::new(cluster(Some(true)), machine("worker-1", false, true), None);
    assert!(a.get_container(&vec![listed("demo-worker-10", "x")]).is_none());
    let node = a.get_container(&vec![listed("x", "1"), listed("demo-worker-1", "2")]).unwrap();
    assert_eq!(node.name, "/demo-worker-1");
    assert_eq!(node.image, "kindest/node:v1.27.3");
    assert_eq!(node.address.as_deref(), Some("172.18.0.2"));
    let mut no_image = listed("demo-worker-1", "3");
    no_image.image = None;
    assert!(a.get_container(&vec![no_image]).is_none());
}

#[test]
fn role_labels_and_inputs() {
    let worker = MachineRole::from_machine(Association::new(
        cluster(Some(true)),
        machine("worker-1", false, true),
        None,
    ));
    assert!(matches!(worker, MachineRole::Worker(_)));
    assert_eq!(worker.role_label(), ("io.x-k8s.kind.role".to_string(), "worker".to_string()));
    assert_eq!(worker.cluster_label(), ("io.x-k8s.kind.cluster".to_string(), "demo".to_string()));
    let hash = worker.base_create().get_hash();
    assert_eq!(worker.hash_label(), ("io.x-k8s.container-hash".to_string(), hash.to_string()));
    assert_eq!(worker.get_filters(), worker.get_labels()[1..].to_vec());
    assert_eq!(worker.get_labels()[0].0, "io.x-k8s.container-hash");
    assert!(!worker.needs_host_port());
    assert!(worker.create_input(None).unwrap().port_mappings.is_empty());

    let cp = MachineRole::from_machine(Association::new(
        cluster(Some(true)),
        machine("demo-cp-1", true, true),
        None,
    ));
    assert!(cp.needs_host_port());
    assert!(matches!(cp.create_input(None), Err(Error::PortLookupError(_))));
    assert!(matches!(cp.create_input(Some(0)), Err(Error::PortLookupError(_))));
    assert_eq!(cp.create_input(Some(30001)).unwrap().port_mappings[0].host_port, 30001);
    assert_eq!(cp.delete_target(&vec![listed("demo-cp-1", "id9")]), Some("id9".to_string()));
    assert_eq!(cp.delete_target(&vec![]), None);
}
