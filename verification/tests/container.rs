use harbourmaster::container::{BuildEvent, Phase, PortMapping};
use harbourmaster::error::removal_outcome;
use harbourmaster::{Container, ContainerBuilder, Error, Protocol};
use shiplift::rep::{Config, ContainerDetails, HostConfig, NetworkSettings, State};
use std::collections::HashMap;

/// The error of a failed build; a successful one fails the test.
fn expect_err(result: Result<Container, Error>) -> Error {
    match result {
        Err(e) => e,
        Ok(_) => panic!("expected a failed build"),
    }
}

/// A minimal inspected-state value as the runtime would report it, carrying
/// the given identifier.
fn details(id: &str) -> ContainerDetails {
    ContainerDetails {
        app_armor_profile: String::new(),
        args: Vec::new(),
        config: Config {
            attach_stderr: false,
            attach_stdin: false,
            attach_stdout: false,
            cmd: None,
            domainname: String::new(),
            entrypoint: None,
            env: None,
            exposed_ports: None,
            hostname: String::new(),
            image: String::new(),
            labels: None,
            on_build: None,
            open_stdin: false,
            stdin_once: false,
            tty: false,
            user: String::new(),
            working_dir: String::new(),
        },
        created: String::new(),
        driver: String::new(),
        host_config: HostConfig {
            cgroup_parent: None,
            container_id_file: String::new(),
            cpu_shares: None,
            cpuset_cpus: None,
            memory: None,
            memory_swap: None,
            network_mode: String::new(),
            pid_mode: None,
            port_bindings: None,
            privileged: false,
            publish_all_ports: false,
            readonly_rootfs: None,
        },
        hostname_path: String::new(),
        hosts_path: String::new(),
        log_path: String::new(),
        id: id.to_string(),
        image: String::new(),
        mount_label: String::new(),
        name: String::new(),
        network_settings: NetworkSettings {
            bridge: String::new(),
            gateway: String::new(),
            ip_address: String::new(),
            ip_prefix_len: 0,
            mac_address: String::new(),
            ports: None,
            networks: HashMap::new(),
        },
        path: String::new(),
        process_label: String::new(),
        resolv_conf_path: String::new(),
        restart_count: 0,
        state: State {
            error: String::new(),
            exit_code: 0,
            finished_at: String::new(),
            oom_killed: false,
            paused: false,
            pid: 0,
            restarting: false,
            running: true,
            started_at: String::new(),
            status: "running".to_string(),
        },
        mounts: Vec::new(),
    }
}

#[test]
fn container_builder_main() {
    let pipeline = Container::builder("couchdb")
        .tag("2.3.0")
        .name("test_container")
        .environment_variable("COUCHDB_USER=admin")
        .environment_variable("COUCHDB_PASSWORD=password")
        .slug_length(6)
        .expose(5984, 5984, Protocol::Tcp)
        .pull_on_build(true)
        .start_build();

    assert_eq!(pipeline.phase(), Phase::Pull);
    assert_eq!(pipeline.request().image, "couchdb:2.3.0");
    assert_eq!(
        pipeline.request().env,
        vec![
            "COUCHDB_USER=admin".to_string(),
            "COUCHDB_PASSWORD=password".to_string()
        ]
    );
    assert_eq!(
        pipeline.request().ports,
        vec![PortMapping {
            source: 5984,
            host: 5984,
            protocol: Protocol::Tcp
        }]
    );
    let name = pipeline.request().name.as_ref().unwrap().clone();
    assert!(name.starts_with("test_container_"));
    assert_eq!(name.len(), "test_container_".len() + 6);
    assert!(name["test_container_".len()..]
        .chars()
        .all(|c| c.is_ascii_alphanumeric()));

    let pipeline = pipeline.step(BuildEvent::PullOk);
    assert_eq!(pipeline.phase(), Phase::Create);
    let pipeline = pipeline.step(BuildEvent::CreateOk {
        id: "cid0ffee".to_string(),
    });
    assert_eq!(pipeline.phase(), Phase::Start);
    assert_eq!(pipeline.resource_id(), "cid0ffee");
    let pipeline = pipeline.step(BuildEvent::StartOk);
    assert_eq!(pipeline.phase(), Phase::Inspect);
    assert_eq!(pipeline.resource_id(), "cid0ffee");
    let pipeline = pipeline.step(BuildEvent::InspectOk {
        id: "cid0ffee".to_string(),
        details: details("cid0ffee"),
    });
    assert_eq!(pipeline.phase(), Phase::Done);

    let container = pipeline.finish().unwrap();
    assert_eq!(container.id(), "cid0ffee");
    assert!(container.ports_raw().is_none());
    println!("container created!");

    let (id, _client) = container.into_removal();
    assert_eq!(id, "cid0ffee");
    assert!(removal_outcome(true).is_ok());
    println!("container deleted!");
}

#[test]
fn container_pull_main() {
    // The pull convenience: same defaults as a plain build, with the pull
    // stage switched on.
    let pipeline = ContainerBuilder::new("alpine")
        .pull_on_build(true)
        .start_build();
    assert_eq!(pipeline.phase(), Phase::Pull);
    assert_eq!(pipeline.request().image, "alpine:latest");

    let pipeline = pipeline
        .step(BuildEvent::PullOk)
        .step(BuildEvent::CreateOk {
            id: "feedc0de".to_string(),
        })
        .step(BuildEvent::StartOk)
        .step(BuildEvent::InspectOk {
            id: "feedc0de".to_string(),
            details: details("feedc0de"),
        });
    let container = pipeline.finish().unwrap();
    assert!(!container.id().is_empty());

    let (id, _client) = container.into_removal();
    assert_eq!(id, "feedc0de");
    assert!(removal_outcome(true).is_ok());
}

#[test]
fn default_build_plan_is_bare_create() {
    // A build with no further configuration: image "alpine:latest", no name,
    // no ports, no environment, no commands, and no pull stage.
    let pipeline = ContainerBuilder::new("alpine").start_build();
    assert_eq!(pipeline.phase(), Phase::Create);
    assert_eq!(pipeline.request().image, "alpine:latest");
    assert!(pipeline.request().name.is_none());
    assert!(pipeline.request().ports.is_empty());
    assert!(pipeline.request().env.is_empty());
    assert!(pipeline.request().commands.is_empty());

    let container = pipeline
        .step(BuildEvent::CreateOk {
            id: "abc123".to_string(),
        })
        .step(BuildEvent::StartOk)
        .step(BuildEvent::InspectOk {
            id: "abc123".to_string(),
            details: details("abc123"),
        })
        .finish()
        .unwrap();
    assert!(!container.id().is_empty());
}

#[test]
fn effective_name_with_slug() {
    // slug_length n > 0: the effective name is the base, '_', and exactly n
    // alphanumeric characters.
    let pipeline = ContainerBuilder::new("img")
        .name("x")
        .slug_length(10)
        .start_build();
    let name = pipeline.request().name.as_ref().unwrap().clone();
    assert!(name.starts_with("x_"));
    assert_eq!(name.len(), 12);
    assert!(name[2..].chars().all(|c| c.is_ascii_alphanumeric()));
}

#[test]
fn effective_name_without_slug() {
    // slug_length 0: the effective name is the base name verbatim.
    let pipeline = ContainerBuilder::new("img").name("x").start_build();
    assert_eq!(pipeline.request().name.as_deref(), Some("x"));
}

#[test]
fn no_name_means_runtime_default() {
    let pipeline = ContainerBuilder::new("img").slug_length(6).start_build();
    assert!(pipeline.request().name.is_none());
}

#[test]
fn empty_name_passes_through() {
    let pipeline = ContainerBuilder::new("img").name("").start_build();
    assert_eq!(pipeline.request().name.as_deref(), Some(""));
}

#[test]
fn expose_accumulates_in_insertion_order() {
    let pipeline = ContainerBuilder::new("img")
        .expose(80, 8080, Protocol::Tcp)
        .expose(53, 5353, Protocol::Udp)
        .expose(80, 8081, Protocol::Tcp)
        .start_build();
    assert_eq!(
        pipeline.request().ports,
        vec![
            PortMapping {
                source: 80,
                host: 8080,
                protocol: Protocol::Tcp
            },
            PortMapping {
                source: 53,
                host: 5353,
                protocol: Protocol::Udp
            },
            PortMapping {
                source: 80,
                host: 8081,
                protocol: Protocol::Tcp
            },
        ]
    );
}

#[test]
fn commands_replace_wholesale() {
    let pipeline = ContainerBuilder::new("img")
        .commands(vec!["echo".to_string(), "hi".to_string()])
        .commands(vec!["true".to_string()])
        .start_build();
    assert_eq!(pipeline.request().commands, vec!["true".to_string()]);
}

#[test]
fn pull_failure_aborts_before_create() {
    // A pull-stream error ends the build with PullFailed; the machine is
    // terminal, so no creation request is ever issued for it.
    let pipeline = ContainerBuilder::new("no/such-image")
        .pull_on_build(true)
        .start_build();
    assert_eq!(pipeline.phase(), Phase::Pull);
    let pipeline = pipeline.step(BuildEvent::PullErr);
    assert_eq!(pipeline.phase(), Phase::Failed);
    assert_eq!(expect_err(pipeline.finish()), Error::PullFailed);
}

#[test]
fn create_rejection_is_create_failed() {
    // Two builds with the same fixed name: the builder deduplicates nothing,
    // so the runtime sees the same name twice and rejects the second
    // creation, which surfaces as CreateFailed.
    let first = ContainerBuilder::new("img").name("dup").start_build();
    let second = ContainerBuilder::new("img").name("dup").start_build();
    assert_eq!(first.request().name, second.request().name);

    let first = first
        .step(BuildEvent::CreateOk {
            id: "one".to_string(),
        })
        .step(BuildEvent::StartOk)
        .step(BuildEvent::InspectOk {
            id: "one".to_string(),
            details: details("one"),
        });
    assert!(first.finish().is_ok());

    let second = second.step(BuildEvent::CreateErr);
    assert_eq!(expect_err(second.finish()), Error::CreateFailed);
}

#[test]
fn start_failure_is_start_failed() {
    let pipeline = ContainerBuilder::new("img")
        .start_build()
        .step(BuildEvent::CreateOk {
            id: "abc".to_string(),
        })
        .step(BuildEvent::StartErr);
    assert_eq!(expect_err(pipeline.finish()), Error::StartFailed);
}

#[test]
fn inspect_failure_is_inspect_failed() {
    let pipeline = ContainerBuilder::new("img")
        .start_build()
        .step(BuildEvent::CreateOk {
            id: "abc".to_string(),
        })
        .step(BuildEvent::StartOk)
        .step(BuildEvent::InspectErr);
    assert_eq!(expect_err(pipeline.finish()), Error::InspectFailed);
}

#[test]
fn empty_inspected_id_never_succeeds() {
    // An inspection success whose state carries no identifier does not yield
    // a handle: the build fails with InspectFailed instead.
    let pipeline = ContainerBuilder::new("img")
        .start_build()
        .step(BuildEvent::CreateOk {
            id: "abc".to_string(),
        })
        .step(BuildEvent::StartOk)
        .step(BuildEvent::InspectOk {
            id: String::new(),
            details: details(""),
        });
    assert_eq!(pipeline.phase(), Phase::Failed);
    assert_eq!(expect_err(pipeline.finish()), Error::InspectFailed);
}

#[test]
fn delete_of_absent_resource_fails() {
    // A resource removed out-of-band: the runtime rejects the forced
    // removal, and this layer surfaces DeleteFailed rather than a no-op.
    let container = ContainerBuilder::new("img")
        .start_build()
        .step(BuildEvent::CreateOk {
            id: "gone".to_string(),
        })
        .step(BuildEvent::StartOk)
        .step(BuildEvent::InspectOk {
            id: "gone".to_string(),
            details: details("gone"),
        })
        .finish()
        .unwrap();
    let (_id, _client) = container.into_removal();
    assert_eq!(removal_outcome(false).unwrap_err(), Error::DeleteFailed);
}

#[test]
fn client_override_threads_through() {
    let client = harbourmaster::Client::from_docker(shiplift::Docker::new());
    let with_override = ContainerBuilder::new("img").client(client).start_build();
    assert!(with_override.client().is_some());
    let without = ContainerBuilder::new("img").start_build();
    assert!(without.client().is_none());
}
