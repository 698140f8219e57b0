use testcontainers::image::{chain_entries, resolve_descriptor};
use testcontainers::keyed::{key_less, KeyedMap};
use testcontainers::{ContainerState, ExecCommand, Host, Image, Port, Ports, RunnableImage, WaitFor};

#[derive(Debug, Default, Clone)]
struct HelloWorld;

impl Image for HelloWorld {
    type Args = ();

    fn name(&self) -> String {
        "hello-world".to_owned()
    }

    fn tag(&self) -> String {
        "latest".to_owned()
    }

    fn ready_conditions(&self) -> Vec<WaitFor> {
        vec![WaitFor::message_on_stdout("Hello from Docker!")]
    }

    fn env_vars(&self) -> Vec<(String, String)> {
        Vec::new()
    }

    fn volumes(&self) -> Vec<(String, String)> {
        Vec::new()
    }

    fn entrypoint(&self) -> Option<String> {
        None
    }

    fn expose_ports(&self) -> Vec<u16> {
        Vec::new()
    }

    fn exec_after_start(&self, _cs: ContainerState) -> Vec<ExecCommand> {
        Vec::new()
    }
}

#[derive(Debug, Default, Clone)]
struct Configured;

impl Image for Configured {
    type Args = Vec<String>;

    fn name(&self) -> String {
        "configured".to_owned()
    }

    fn tag(&self) -> String {
        "1.0".to_owned()
    }

    fn ready_conditions(&self) -> Vec<WaitFor> {
        vec![WaitFor::message_on_stdout("ready"), WaitFor::seconds(2)]
    }

    fn env_vars(&self) -> Vec<(String, String)> {
        vec![("Z".to_owned(), "image".to_owned()), ("A".to_owned(), "image".to_owned())]
    }

    fn volumes(&self) -> Vec<(String, String)> {
        vec![("/data".to_owned(), "/var/data".to_owned())]
    }

    fn entrypoint(&self) -> Option<String> {
        Some("./run".to_owned())
    }

    fn expose_ports(&self) -> Vec<u16> {
        vec![8080, 9090]
    }

    fn exec_after_start(&self, cs: ContainerState) -> Vec<ExecCommand> {
        let port = cs.host_port_ipv4(8080);
        vec![
            ExecCommand::new(vec!["configure".to_owned(), port.to_string()]),
            ExecCommand::new(vec!["seed".to_owned()])
                .with_cmd_ready_condition(WaitFor::message_on_stdout("seeded")),
            ExecCommand::new(vec!["configure".to_owned(), port.to_string()]),
        ]
    }
}

fn pairs(v: &[(&str, &str)]) -> Vec<(String, String)> {
    v.iter().map(|(k, x)| (k.to_string(), x.to_string())).collect()
}

#[test]
fn descriptor_without_overrides() {
    let image = RunnableImage::new(HelloWorld, ());
    assert_eq!(image.descriptor(), "hello-world:latest");
}

#[test]
fn overlay_from_image_and_from_parts() {
    let image = RunnableImage::from(HelloWorld);
    assert_eq!(image.descriptor(), "hello-world:latest");
    assert_eq!(image.args(), &());
    let image = RunnableImage::from((Configured, vec!["http://custom-host:80".to_owned()]))
        .with_host("custom-host", Host::HostGateway);
    assert_eq!(image.args(), &vec!["http://custom-host:80".to_owned()]);
    assert_eq!(image.hosts().len(), 1);
}

#[test]
fn descriptor_with_name_and_tag_overrides() {
    let image = RunnableImage::new(HelloWorld, ())
        .with_name("myorg/hello-world")
        .with_tag("v2");
    assert_eq!(image.descriptor(), "myorg/hello-world:v2");
}

#[test]
fn descriptor_with_tag_override_only() {
    let image = RunnableImage::new(HelloWorld, ()).with_tag("v3");
    assert_eq!(image.descriptor(), "hello-world:v3");
    let image = RunnableImage::new(HelloWorld, ()).with_name("mirror/hello");
    assert_eq!(image.descriptor(), "mirror/hello:latest");
}

#[test]
fn resolve_descriptor_prefers_overrides() {
    let none: Option<String> = None;
    assert_eq!(resolve_descriptor(&none, &none, "a".to_owned(), "b".to_owned()), "a:b");
    assert_eq!(
        resolve_descriptor(&Some("n".to_owned()), &none, "a".to_owned(), "b".to_owned()),
        "n:b"
    );
    assert_eq!(
        resolve_descriptor(&none, &Some("t".to_owned()), "a".to_owned(), "b".to_owned()),
        "a:t"
    );
    assert_eq!(resolve_descriptor(&none, &none, "".to_owned(), "".to_owned()), ":");
}

#[test]
fn env_var_set_twice_keeps_last_value() {
    let image = RunnableImage::new(HelloWorld, ())
        .with_env_var(("A", "1"))
        .with_env_var(("A", "2"));
    assert_eq!(image.env_vars(), pairs(&[("A", "2")]));
    let image = image.with_env_var(("B", "3"));
    assert_eq!(image.env_vars(), pairs(&[("A", "2"), ("B", "3")]));
}

#[test]
fn env_vars_follow_image_defaults_in_key_order() {
    let image = RunnableImage::new(Configured, vec![])
        .with_env_var(("b", "2"))
        .with_env_var(("B", "1"))
        .with_env_var(("a", "0"))
        .with_env_var(("A", "overlay"));
    assert_eq!(
        image.env_vars(),
        pairs(&[
            ("Z", "image"),
            ("A", "image"),
            ("A", "overlay"),
            ("B", "1"),
            ("a", "0"),
            ("b", "2"),
        ])
    );
}

#[test]
fn volumes_follow_image_defaults() {
    let image = RunnableImage::new(Configured, vec![])
        .with_volume(("/tmp", "/scratch"))
        .with_volume(("/tmp", "/other"));
    assert_eq!(
        image.volumes(),
        pairs(&[("/data", "/var/data"), ("/tmp", "/other")])
    );
}

#[test]
fn derived_overlays_leave_base_unchanged() {
    let base = RunnableImage::new(HelloWorld, ()).with_env_var(("K", "base"));
    let tagged = base.clone().with_tag("x");
    let named = base.clone().with_name("other").with_env_var(("K", "named"));
    assert_eq!(base.descriptor(), "hello-world:latest");
    assert_eq!(tagged.descriptor(), "hello-world:x");
    assert_eq!(named.descriptor(), "other:latest");
    assert_eq!(base.env_vars(), pairs(&[("K", "base")]));
    assert_eq!(tagged.env_vars(), pairs(&[("K", "base")]));
    assert_eq!(named.env_vars(), pairs(&[("K", "named")]));
}

#[test]
fn overlay_settings() {
    let image = RunnableImage::new(Configured, vec!["--flag".to_owned()]);
    assert_eq!(image.args(), &vec!["--flag".to_owned()]);
    assert_eq!(image.network(), &None);
    assert_eq!(image.container_name(), &None);
    assert_eq!(image.ports(), &None);
    assert!(!image.privileged());
    assert_eq!(image.shm_size(), None);
    assert_eq!(image.entrypoint(), Some("./run".to_owned()));
    assert_eq!(image.expose_ports(), vec![8080, 9090]);
    assert_eq!(image.ready_conditions(), vec![WaitFor::message_on_stdout("ready"), WaitFor::seconds(2)]);
    let image = image
        .with_args(vec!["a".to_owned(), "b".to_owned()])
        .with_network("net")
        .with_container_name("box")
        .with_privileged(true)
        .with_shm_size(1 << 20)
        .with_mapped_port(Port::from((8000, 80)))
        .with_mapped_port(Port { local: 0, internal: 443 });
    assert_eq!(image.args(), &vec!["a".to_owned(), "b".to_owned()]);
    assert_eq!(image.network(), &Some("net".to_owned()));
    assert_eq!(image.container_name(), &Some("box".to_owned()));
    assert!(image.privileged());
    assert_eq!(image.shm_size(), Some(1048576));
    assert_eq!(
        image.ports(),
        &Some(vec![Port { local: 8000, internal: 80 }, Port { local: 0, internal: 443 }])
    );
    assert_eq!(image.descriptor(), "configured:1.0");
}

#[test]
fn hosts_in_name_order() {
    let image = RunnableImage::new(HelloWorld, ())
        .with_host("custom-host", Host::HostGateway)
        .with_host("db", Host::Addr("10.0.0.5".to_owned()))
        .with_host("custom-host", Host::Addr("127.0.0.1".to_owned()));
    let hosts: Vec<(String, String)> = image
        .hosts()
        .iter()
        .map(|(k, h)| (k.clone(), h.to_string()))
        .collect();
    assert_eq!(hosts, pairs(&[("custom-host", "127.0.0.1"), ("db", "10.0.0.5")]));
}

#[test]
fn host_text() {
    assert_eq!(Host::HostGateway.to_string(), "host-gateway");
    assert_eq!(Host::Addr("::1".to_owned()).to_string(), "::1");
}

#[test]
fn exec_after_start_keeps_order() {
    let ports = Ports::new().with_ipv4_mapping(8080, 49153);
    let image = RunnableImage::new(Configured, vec![]);
    let commands = image.exec_after_start(ContainerState::new(ports));
    let lines: Vec<Vec<String>> = commands.iter().map(|c| c.cmd().clone()).collect();
    assert_eq!(
        lines,
        vec![
            vec!["configure".to_owned(), "49153".to_owned()],
            vec!["seed".to_owned()],
            vec!["configure".to_owned(), "49153".to_owned()],
        ]
    );
    assert_eq!(commands[0].cmd_ready_condition(), &WaitFor::Nothing);
    assert_eq!(commands[1].cmd_ready_condition(), &WaitFor::message_on_stdout("seeded"));
}

#[test]
fn default_image_has_no_post_start_commands() {
    let image = RunnableImage::new(HelloWorld, ());
    let commands = image.exec_after_start(ContainerState::new(Ports::new()));
    assert!(commands.is_empty());
    assert!(image.env_vars().is_empty());
    assert!(image.volumes().is_empty());
    assert_eq!(image.entrypoint(), None);
    assert!(image.expose_ports().is_empty());
}

#[test]
fn exec_command_builders() {
    let c = ExecCommand::new(vec!["ls".to_owned()])
        .with_cmd_ready_condition(WaitFor::message_on_stderr("done"))
        .with_container_ready_conditions(vec![WaitFor::Healthcheck, WaitFor::millis(5)]);
    assert_eq!(c.cmd(), &vec!["ls".to_owned()]);
    assert_eq!(c.cmd_ready_condition(), &WaitFor::message_on_stderr("done"));
    assert_eq!(c.container_ready_conditions(), &vec![WaitFor::Healthcheck, WaitFor::millis(5)]);
    let d = ExecCommand::default();
    assert!(d.cmd().is_empty());
    assert_eq!(d.cmd_ready_condition(), &WaitFor::Nothing);
    assert!(d.container_ready_conditions().is_empty());
}

#[test]
fn key_order_is_character_order() {
    assert!(key_less("A", "a"));
    assert!(key_less("a", "ab"));
    assert!(!key_less("ab", "a"));
    assert!(!key_less("x", "x"));
    assert!(key_less("", "a"));
    assert!(key_less("z", "é"));
}

#[test]
fn keyed_map_insert_and_chain() {
    let m = KeyedMap::new()
        .insert("b".to_owned(), "2".to_owned())
        .insert("a".to_owned(), "1".to_owned())
        .insert("c".to_owned(), "3".to_owned())
        .insert("b".to_owned(), "two".to_owned());
    assert_eq!(m.len(), 3);
    assert_eq!(m.entries(), &pairs(&[("a", "1"), ("b", "two"), ("c", "3")]));
    let copy = m.clone();
    assert_eq!(copy.entries(), m.entries());
    let chained = chain_entries(pairs(&[("z", "0"), ("a", "x")]), &m);
    assert_eq!(
        chained,
        pairs(&[("z", "0"), ("a", "x"), ("a", "1"), ("b", "two"), ("c", "3")])
    );
}

#[test]
fn generic_image_settings() {
    let image = testcontainers::GenericImage::new("no_expose_port", "latest")
        .with_wait_for(WaitFor::message_on_stdout("listening on 0.0.0.0:8080"))
        .with_exposed_port(8080)
        .with_entrypoint("./bar")
        .with_env_var(("B", "2"))
        .with_env_var(("A", "1"))
        .with_env_var(("B", "3"))
        .with_volume(("/src", "/dst"));
    assert_eq!(image.name(), "no_expose_port");
    assert_eq!(image.tag(), "latest");
    assert_eq!(
        image.ready_conditions(),
        vec![WaitFor::message_on_stdout("listening on 0.0.0.0:8080")]
    );
    assert_eq!(image.expose_ports(), vec![8080]);
    assert_eq!(image.entrypoint(), Some("./bar".to_owned()));
    assert_eq!(image.env_vars(), pairs(&[("A", "1"), ("B", "3")]));
    assert_eq!(image.volumes(), pairs(&[("/src", "/dst")]));
    assert!(image.exec_after_start(ContainerState::new(Ports::new())).is_empty());
}

#[test]
fn generic_overlay_clones_are_independent() {
    let base = RunnableImage::from((
        testcontainers::GenericImage::new("hello-world", "latest").with_wait_for(WaitFor::seconds(2)),
        vec![],
    ))
    .with_env_var(("K", "base"));
    let first = base.clone().with_tag("x").with_env_var(("K", "first"));
    let second = base.clone().with_host("db", Host::HostGateway);
    assert_eq!(base.descriptor(), "hello-world:latest");
    assert_eq!(first.descriptor(), "hello-world:x");
    assert_eq!(second.descriptor(), "hello-world:latest");
    assert_eq!(base.env_vars(), pairs(&[("K", "base")]));
    assert_eq!(first.env_vars(), pairs(&[("K", "first")]));
    assert_eq!(second.env_vars(), pairs(&[("K", "base")]));
    assert!(base.hosts().is_empty());
    assert_eq!(second.hosts().len(), 1);
    assert_eq!(base.ready_conditions(), vec![WaitFor::seconds(2)]);
    assert_eq!(first.ready_conditions(), vec![WaitFor::millis(2000)]);
}
