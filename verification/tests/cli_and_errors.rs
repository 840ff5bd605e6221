use devcontainer::cli::{help_text, parse_subcommand, unknown_command_message, Subcommand};
use devcontainer::config::{
    ComposeConfig, DevcontainerConfig, ImageConfig, PortsConfig, VolumeEntry, VolumeMount,
};
use devcontainer::decimal::decimal_string;
use devcontainer::errors::{
    config_path, propagate_exit_code, ConfigError, ValidationIssue,
};
use devcontainer::render::handle_read;

#[test]
fn every_subcommand_name_is_recognized() {
    assert_eq!(parse_subcommand(&"build".to_string()), Some(Subcommand::Build));
    assert_eq!(parse_subcommand(&"up".to_string()), Some(Subcommand::Up));
    assert_eq!(parse_subcommand(&"exec".to_string()), Some(Subcommand::Exec));
    assert_eq!(parse_subcommand(&"stop".to_string()), Some(Subcommand::Stop));
    assert_eq!(parse_subcommand(&"down".to_string()), Some(Subcommand::Down));
    assert_eq!(parse_subcommand(&"read".to_string()), Some(Subcommand::Read));
    assert_eq!(parse_subcommand(&"-h".to_string()), Some(Subcommand::Help));
    assert_eq!(parse_subcommand(&"--help".to_string()), Some(Subcommand::Help));
    assert_eq!(parse_subcommand(&"help".to_string()), Some(Subcommand::Help));
}

#[test]
fn unknown_first_argument_is_rejected_with_a_message() {
    assert_eq!(parse_subcommand(&"bulid".to_string()), None);
    assert_eq!(
        unknown_command_message(&"bulid".to_string()),
        "unknown command or option: bulid"
    );
}

#[test]
fn help_text_lists_every_subcommand() {
    let text = help_text();
    assert!(text.starts_with("Usage: devcontainer"));
    for name in ["build", "up", "exec", "stop", "down", "read", "-h, --help"] {
        assert!(text.contains(name));
    }
}

#[test]
fn validation_messages_match_their_issues() {
    assert_eq!(
        ValidationIssue::NoKindSet.message(),
        "no container kind specified"
    );
    assert_eq!(
        ValidationIssue::NoKindSet.hint(),
        " Expected one of [image], [build], or [compose] in devcontainer.toml"
    );
    assert_eq!(
        ValidationIssue::MultipleKindsSet.message(),
        "multiple container kinds specified"
    );
    assert_eq!(
        ValidationIssue::MultipleKindsSet.hint(),
        " Only one of [image], [build], or [compose] can be set in devcontainer.toml"
    );
    assert_eq!(ValidationIssue::MissingComposeService.hint(), "");
}

#[test]
fn malformed_configuration_text_is_a_parse_error() {
    let parsed = "not [valid toml".parse::<toml::Table>();
    let cause = match parsed {
        Ok(_) => panic!("malformed text must not parse"),
        Err(e) => e.to_string(),
    };
    let err = ConfigError::ParseError(cause.clone());
    assert_eq!(err.exit_code(), 1);
    assert_eq!(
        err.message(),
        format!("Failed to read .devcontainer/devcontainer.toml as TOML: {cause}")
    );
}

#[test]
fn unreadable_configuration_is_a_read_error_at_the_fixed_path() {
    assert_eq!(config_path(), ".devcontainer/devcontainer.toml");
    let err = ConfigError::ReadError("No such file or directory".to_string());
    assert_eq!(err.exit_code(), 1);
    assert_eq!(
        err.message(),
        "Failed to read .devcontainer/devcontainer.toml: No such file or directory"
    );
}

#[test]
fn external_tool_exit_codes_are_propagated() {
    assert_eq!(propagate_exit_code(true, Some(0)), 0);
    assert_eq!(propagate_exit_code(false, Some(3)), 3);
    assert_eq!(propagate_exit_code(false, Some(125)), 125);
    assert_eq!(propagate_exit_code(false, None), 1);
}

#[test]
fn decimal_rendering_is_exact() {
    assert_eq!(decimal_string(0), "0");
    assert_eq!(decimal_string(7), "7");
    assert_eq!(decimal_string(80), "80");
    assert_eq!(decimal_string(443), "443");
    assert_eq!(decimal_string(65535), "65535");
}

#[test]
fn read_renders_every_configured_field() {
    let cfg = DevcontainerConfig {
        name: "devbox".to_string(),
        image: Some(ImageConfig { name: "alpine:3.20".to_string() }),
        build: None,
        compose: None,
        run: None,
        ports: Some(PortsConfig { app: vec![3000], forward: vec![443, 80] }),
        volumes: vec![VolumeEntry {
            name: "src".to_string(),
            mount: VolumeMount {
                host: "/a".to_string(),
                container: "/b".to_string(),
                mode: None,
            },
        }],
    };
    let text = handle_read(&Vec::new(), &cfg);
    assert_eq!(
        text,
        "name=devbox\n\
         image.name=alpine:3.20\n\
         port.app=3000\n\
         port.forward=443\n\
         port.forward=80\n\
         volume.src=/a:/b:rw\n"
    );
}

#[test]
fn read_works_whatever_the_kind_cardinality() {
    let mut cfg = DevcontainerConfig {
        name: "devbox".to_string(),
        image: Some(ImageConfig { name: "alpine".to_string() }),
        build: None,
        compose: Some(ComposeConfig {
            files: vec!["a.yml".to_string()],
            service: Some("web".to_string()),
            workspace_folder: Some("/ws".to_string()),
            shutdown_action: Some("stopCompose".to_string()),
            override_command: Some(true),
        }),
        run: None,
        ports: None,
        volumes: Vec::new(),
    };
    let text = handle_read(&Vec::new(), &cfg);
    assert_eq!(
        text,
        "name=devbox\n\
         image.name=alpine\n\
         compose.file=a.yml\n\
         compose.service=web\n\
         compose.workspace_folder=/ws\n\
         compose.shutdown_action=stopCompose\n\
         compose.override_command=true\n"
    );
    cfg.image = None;
    cfg.compose = None;
    assert_eq!(handle_read(&Vec::new(), &cfg), "name=devbox\n");
}
