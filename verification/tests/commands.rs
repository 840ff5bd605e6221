use devcontainer::command::{
    handle_build, handle_down, handle_exec, handle_stop, handle_up, mount_arg, port_arg,
};
use devcontainer::config::{
    BuildConfig, ComposeConfig, DevcontainerConfig, ImageConfig, PortsConfig, RunConfig,
    VolumeEntry, VolumeMount,
};
use devcontainer::errors::{ConfigError, ValidationIssue};

fn strings(xs: &[&str]) -> Vec<String> {
    xs.iter().map(|s| s.to_string()).collect()
}

fn bare_config(name: &str) -> DevcontainerConfig {
    DevcontainerConfig {
        name: name.to_string(),
        image: None,
        build: None,
        compose: None,
        run: None,
        ports: None,
        volumes: Vec::new(),
    }
}

fn image_config(name: &str, image: &str) -> DevcontainerConfig {
    let mut cfg = bare_config(name);
    cfg.image = Some(ImageConfig { name: image.to_string() });
    cfg
}

fn compose_config(name: &str, files: &[&str], service: Option<&str>) -> DevcontainerConfig {
    let mut cfg = bare_config(name);
    cfg.compose = Some(ComposeConfig {
        files: strings(files),
        service: service.map(|s| s.to_string()),
        workspace_folder: None,
        shutdown_action: None,
        override_command: None,
    });
    cfg
}

#[test]
fn build_image_kind_pulls_the_image() {
    let cfg = image_config("dev", "alpine:3.20");
    let cmd = handle_build(&Vec::new(), &cfg).unwrap();
    assert_eq!(cmd.program, "docker");
    assert_eq!(cmd.args, strings(&["pull", "alpine:3.20"]));
}

#[test]
fn build_build_kind_assembles_flags_in_order() {
    let mut cfg = bare_config("dev");
    cfg.build = Some(BuildConfig {
        name: "devimg".to_string(),
        dockerfile: "Dockerfile.dev".to_string(),
        context: ".".to_string(),
        target: Some("base".to_string()),
        args: vec![
            ("A".to_string(), "1".to_string()),
            ("B".to_string(), "two".to_string()),
        ],
    });
    let cmd = handle_build(&Vec::new(), &cfg).unwrap();
    assert_eq!(
        cmd.args,
        strings(&[
            "build",
            "-f",
            "Dockerfile.dev",
            "-t",
            "devimg",
            "--target",
            "base",
            "--build-arg",
            "A=1",
            "--build-arg",
            "B=two",
            ".",
        ])
    );
}

#[test]
fn build_build_kind_without_target_or_args() {
    let mut cfg = bare_config("dev");
    cfg.build = Some(BuildConfig {
        name: "devimg".to_string(),
        dockerfile: "Dockerfile".to_string(),
        context: "src".to_string(),
        target: None,
        args: Vec::new(),
    });
    let cmd = handle_build(&Vec::new(), &cfg).unwrap();
    assert_eq!(cmd.args, strings(&["build", "-f", "Dockerfile", "-t", "devimg", "src"]));
}

#[test]
fn build_compose_kind_spans_all_files() {
    let cfg = compose_config("dev", &["a.yml", "b.yml"], None);
    let cmd = handle_build(&Vec::new(), &cfg).unwrap();
    assert_eq!(cmd.args, strings(&["compose", "-f", "a.yml", "-f", "b.yml", "build"]));
}

#[test]
fn build_with_no_kind_is_a_validation_error() {
    let cfg = bare_config("dev");
    let r = handle_build(&Vec::new(), &cfg);
    match r {
        Err(ConfigError::ValidationError(issue)) => {
            assert_eq!(issue, ValidationIssue::NoKindSet);
            assert_eq!(ConfigError::ValidationError(issue).exit_code(), 1);
        }
        _ => panic!("expected a validation error"),
    }
}

#[test]
fn build_with_two_kinds_is_a_validation_error() {
    let mut cfg = image_config("dev", "alpine");
    cfg.compose = Some(ComposeConfig {
        files: strings(&["c.yml"]),
        service: None,
        workspace_folder: None,
        shutdown_action: None,
        override_command: None,
    });
    let r = handle_build(&Vec::new(), &cfg);
    match r {
        Err(ConfigError::ValidationError(issue)) => {
            assert_eq!(issue, ValidationIssue::MultipleKindsSet)
        }
        _ => panic!("expected a validation error"),
    }
}

#[test]
fn up_with_no_kind_is_a_validation_error() {
    let r = handle_up(&Vec::new(), &bare_config("dev"));
    assert!(matches!(
        r,
        Err(ConfigError::ValidationError(ValidationIssue::NoKindSet))
    ));
}

#[test]
fn up_with_three_kinds_is_a_validation_error() {
    let mut cfg = image_config("dev", "alpine");
    cfg.build = Some(BuildConfig {
        name: "t".to_string(),
        dockerfile: "D".to_string(),
        context: ".".to_string(),
        target: None,
        args: Vec::new(),
    });
    cfg.compose = Some(ComposeConfig {
        files: Vec::new(),
        service: None,
        workspace_folder: None,
        shutdown_action: None,
        override_command: None,
    });
    let r = handle_up(&Vec::new(), &cfg);
    assert!(matches!(
        r,
        Err(ConfigError::ValidationError(ValidationIssue::MultipleKindsSet))
    ));
}

#[test]
fn up_image_kind_runs_detached_with_everything() {
    let mut cfg = image_config("devbox", "ubuntu:24.04");
    cfg.run = Some(RunConfig {
        workdir: "/work".to_string(),
        user: Some("dev".to_string()),
        run_args: strings(&["--rm", "--init"]),
    });
    cfg.ports = Some(PortsConfig { app: vec![3000, 80], forward: vec![443] });
    cfg.volumes = vec![
        VolumeEntry {
            name: "src".to_string(),
            mount: VolumeMount {
                host: "/home/me/src".to_string(),
                container: "/work".to_string(),
                mode: None,
            },
        },
        VolumeEntry {
            name: "cache".to_string(),
            mount: VolumeMount {
                host: "/tmp/cache".to_string(),
                container: "/cache".to_string(),
                mode: Some("ro".to_string()),
            },
        },
    ];
    let cmd = handle_up(&Vec::new(), &cfg).unwrap();
    assert_eq!(
        cmd.args,
        strings(&[
            "run",
            "-d",
            "--name",
            "devbox",
            "--user",
            "dev",
            "--workdir",
            "/work",
            "--rm",
            "--init",
            "-v",
            "/home/me/src:/work:rw",
            "-v",
            "/tmp/cache:/cache:ro",
            "-p",
            "3000:3000",
            "-p",
            "80:80",
            "-p",
            "443:443",
            "ubuntu:24.04",
        ])
    );
}

#[test]
fn up_build_kind_runs_the_build_tag() {
    let mut cfg = bare_config("devbox");
    cfg.build = Some(BuildConfig {
        name: "devimg".to_string(),
        dockerfile: "Dockerfile".to_string(),
        context: ".".to_string(),
        target: None,
        args: Vec::new(),
    });
    let cmd = handle_up(&Vec::new(), &cfg).unwrap();
    assert_eq!(cmd.args, strings(&["run", "-d", "--name", "devbox", "devimg"]));
}

#[test]
fn up_compose_kind_is_detached_and_scoped_to_the_service() {
    let cfg = compose_config("dev", &["docker-compose.yml"], Some("web"));
    let cmd = handle_up(&Vec::new(), &cfg).unwrap();
    assert_eq!(
        cmd.args,
        strings(&["compose", "-f", "docker-compose.yml", "up", "-d", "web"])
    );
}

#[test]
fn up_compose_kind_without_service_is_unscoped() {
    let cfg = compose_config("dev", &["docker-compose.yml"], None);
    let cmd = handle_up(&Vec::new(), &cfg).unwrap();
    assert_eq!(cmd.args, strings(&["compose", "-f", "docker-compose.yml", "up", "-d"]));
}

#[test]
fn exec_compose_without_service_is_a_validation_error() {
    let cfg = compose_config("dev", &["a.yml"], None);
    let r = handle_exec(&Vec::new(), &cfg);
    match r {
        Err(e) => {
            assert!(matches!(
                e,
                ConfigError::ValidationError(ValidationIssue::MissingComposeService)
            ));
            assert_eq!(e.exit_code(), 1);
            assert_eq!(
                e.message(),
                "[compose].service is required to know which compose service to exec into"
            );
        }
        Ok(_) => panic!("expected a validation error"),
    }
}

#[test]
fn exec_compose_with_service_defaults_to_a_shell() {
    let cfg = compose_config("dev", &["a.yml", "b.yml"], Some("api"));
    let cmd = handle_exec(&Vec::new(), &cfg).unwrap();
    assert_eq!(
        cmd.args,
        strings(&["compose", "-f", "a.yml", "-f", "b.yml", "exec", "-it", "api", "sh"])
    );
}

#[test]
fn exec_container_passes_trailing_arguments_verbatim() {
    let cfg = image_config("devbox", "alpine");
    let cmd = handle_exec(&strings(&["ls", "-la"]), &cfg).unwrap();
    assert_eq!(cmd.args, strings(&["exec", "-it", "devbox", "ls", "-la"]));
}

#[test]
fn exec_container_defaults_to_a_shell() {
    let cfg = image_config("devbox", "alpine");
    let cmd = handle_exec(&Vec::new(), &cfg).unwrap();
    assert_eq!(cmd.args, strings(&["exec", "-it", "devbox", "sh"]));
}

#[test]
fn exec_without_any_kind_targets_the_named_container() {
    let cfg = bare_config("devbox");
    let cmd = handle_exec(&Vec::new(), &cfg).unwrap();
    assert_eq!(cmd.args, strings(&["exec", "-it", "devbox", "sh"]));
}

#[test]
fn stop_container_and_stop_stack() {
    let single = handle_stop(&Vec::new(), &image_config("devbox", "alpine"));
    assert_eq!(single.args, strings(&["stop", "devbox"]));
    let stack = handle_stop(&Vec::new(), &compose_config("dev", &["a.yml"], None));
    assert_eq!(stack.args, strings(&["compose", "-f", "a.yml", "stop"]));
}

#[test]
fn down_removes_container_or_tears_stack_down() {
    let single = handle_down(&Vec::new(), &image_config("devbox", "alpine"));
    assert_eq!(single.args, strings(&["rm", "-f", "devbox"]));
    let stack = handle_down(&Vec::new(), &compose_config("dev", &["a.yml", "b.yml"], None));
    assert_eq!(stack.args, strings(&["compose", "-f", "a.yml", "-f", "b.yml", "down"]));
}

#[test]
fn port_mapping_is_identical_on_both_sides() {
    assert_eq!(port_arg(8080), "8080:8080");
    assert_eq!(port_arg(0), "0:0");
    assert_eq!(port_arg(65535), "65535:65535");
}

#[test]
fn mount_argument_defaults_to_read_write() {
    let m = VolumeMount {
        host: "/a".to_string(),
        container: "/b".to_string(),
        mode: None,
    };
    assert_eq!(mount_arg(&m), "/a:/b:rw");
}

#[test]
fn mount_argument_keeps_an_explicit_mode() {
    let m = VolumeMount {
        host: "/a".to_string(),
        container: "/b".to_string(),
        mode: Some("ro".to_string()),
    };
    assert_eq!(mount_arg(&m), "/a:/b:ro");
}
