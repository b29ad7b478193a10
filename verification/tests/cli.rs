use clap::{Arg, ArgAction, Command};
use punch::app::Plan;
use punch::cli::{Cli, Commands};
use punch::config::{ConfigRead, PunchConfig, PunchTunnelConfig};
use punch::error::ErrorKind;
use punch::launch::LaunchOptions;
use punch::types::{LocalProtocol, TunnelTarget};
use std::path::PathBuf;

fn flag(name: &'static str) -> Arg {
    Arg::new(name).long(name).global(true).action(ArgAction::SetTrue)
}

/// The part of the command line that the tests below use.
fn try_parse_from(args: &[&str]) -> Result<Cli, clap::Error> {
    let matches = Command::new("punch")
        .arg(Arg::new("target"))
        .arg(flag("http").conflicts_with_all(["tcp"]))
        .arg(flag("https").conflicts_with_all(["http", "tcp"]))
        .arg(flag("tcp").conflicts_with_all(["http", "https"]))
        .arg(flag("detach"))
        .arg(flag("export"))
        .subcommand(Command::new("stop").arg(Arg::new("domain").required(true)))
        .try_get_matches_from(args)?;
    let command = match matches.subcommand() {
        Some(("stop", stop)) => Some(Commands::Stop {
            domain: stop.get_one::<String>("domain").expect("a domain").clone(),
        }),
        _ => None,
    };
    Ok(Cli {
        target: matches.get_one::<String>("target").cloned(),
        command,
        http: matches.get_flag("http"),
        https: matches.get_flag("https"),
        tcp: matches.get_flag("tcp"),
        detach: matches.get_flag("detach"),
        export: matches.get_flag("export"),
        ..empty()
    })
}

fn empty() -> Cli {
    Cli {
        target: None,
        command: None,
        version: false,
        protocol: None,
        http: false,
        https: false,
        tcp: false,
        insecure: false,
        export: false,
        detach: false,
        home: None,
    }
}

#[test]
fn parse_target_with_default_port() {
    let target = TunnelTarget::parse("demo.com").expect("target should parse");
    assert_eq!(target.domain, "demo.com");
    assert_eq!(target.port, 8080);
}

#[test]
fn parse_target_with_explicit_port() {
    let target = TunnelTarget::parse("api.example.com:3000").expect("target should parse");
    assert_eq!(target.domain, "api.example.com");
    assert_eq!(target.port, 3000);
}

#[test]
fn cli_parses_top_level_target_and_flags() {
    let cli = try_parse_from(&["punch", "demo.com:8443", "--https", "--detach"])
        .expect("cli should parse");
    assert_eq!(cli.target.as_deref(), Some("demo.com:8443"));
    assert_eq!(cli.selected_protocol(), Some(LocalProtocol::Https));
    assert!(cli.detach);
}

#[test]
fn cli_parses_subcommands() {
    let cli = try_parse_from(&["punch", "stop", "demo.com"]).expect("cli should parse");
    match cli.command {
        Some(Commands::Stop { domain }) => assert_eq!(domain, "demo.com"),
        _ => panic!("expected stop command"),
    }
}

#[test]
fn punch_config_loads_yaml() {
    let text = r#"
tunnels:
  - domain: api.example.com
    port: 3000
    https: true
  - domain: demo.com
    port: 8080
"#;
    let value: serde_yaml::Value = serde_yaml::from_str(text).expect("config should be written");
    let tunnels = value["tunnels"]
        .as_sequence()
        .expect("a list")
        .iter()
        .map(|tunnel| PunchTunnelConfig {
            domain: tunnel["domain"].as_str().expect("a domain").to_string(),
            port: tunnel["port"].as_u64().expect("a port") as u16,
            https: tunnel["https"].as_bool(),
            env: None,
        })
        .collect();
    let config = PunchConfig::load(ConfigRead::Parsed(PunchConfig { tunnels }), &PathBuf::from("punch.yml"))
        .expect("config should load");
    assert_eq!(config.tunnels.len(), 2);
    assert_eq!(config.tunnels[0].domain, "api.example.com");
    assert_eq!(config.tunnels[0].https, Some(true));
}

#[test]
fn config_that_cannot_be_read_names_the_file() {
    let error = PunchConfig::load(
        ConfigRead::Unreadable(vec!["no such file".to_string()]),
        &PathBuf::from("a/punch.yml"),
    )
    .unwrap_err();
    assert_eq!(error.line(), "读取配置文件失败: a/punch.yml: no such file");
    let error = PunchConfig::load(
        ConfigRead::Malformed(vec!["bad indent".to_string()]),
        &PathBuf::from("punch.yml"),
    )
    .unwrap_err();
    assert_eq!(error.line(), "解析配置文件失败: punch.yml: bad indent");
    assert!(PunchConfig::default().tunnels.is_empty());
}

#[test]
fn protocol_flags_select_protocols() {
    assert_eq!(empty().selected_protocol(), None);
    let http = Cli { http: true, ..empty() };
    assert_eq!(http.selected_protocol(), Some(LocalProtocol::Http));
    let tcp = Cli { tcp: true, ..empty() };
    assert_eq!(tcp.selected_protocol(), Some(LocalProtocol::Tcp));
    let named = Cli {
        protocol: Some(LocalProtocol::Tcp),
        http: true,
        ..empty()
    };
    assert_eq!(named.selected_protocol(), Some(LocalProtocol::Tcp));
}

#[test]
fn version_goes_before_every_command() {
    let cli = Cli {
        version: true,
        command: Some(Commands::Ls),
        ..empty()
    };
    assert!(matches!(punch::run(cli), Ok(Plan::Version)));
}

#[test]
fn no_command_and_no_target_is_an_error() {
    let error = punch::run(empty()).unwrap_err();
    assert_eq!(error.kind, ErrorKind::MissingTarget);
    assert_eq!(error.line(), "请输入目标，例如 `punch demo.com:8080`");
}

#[test]
fn exported_tunnels_run_detached() {
    let cli = Cli {
        target: Some("demo.com".to_string()),
        export: true,
        tcp: true,
        insecure: true,
        ..empty()
    };
    match punch::run(cli) {
        Ok(Plan::Launch(target, options)) => {
            assert_eq!(target, "demo.com");
            assert_eq!(
                options,
                LaunchOptions {
                    protocol: Some(LocalProtocol::Tcp),
                    insecure: true,
                    detach: true,
                    export: true,
                    share: None,
                }
            );
        }
        other => panic!("expected a launch, got {other:?}"),
    }
}

#[test]
fn plain_targets_run_in_the_foreground() {
    let cli = try_parse_from(&["punch", "demo.com"]).expect("cli should parse");
    match punch::run(cli) {
        Ok(Plan::Launch(_, options)) => assert!(!options.detach && !options.export),
        other => panic!("expected a launch, got {other:?}"),
    }
}

#[test]
fn every_command_has_its_plan() {
    let plan = |command: Commands| {
        punch::run(Cli {
            command: Some(command),
            https: true,
            insecure: true,
            ..empty()
        })
        .expect("a plan")
    };
    assert!(matches!(
        plan(Commands::Auth { token: Some("t".to_string()) }),
        Plan::Auth(Some(token)) if token == "t"
    ));
    assert!(matches!(plan(Commands::Ls), Plan::List));
    assert!(matches!(
        plan(Commands::Stop { domain: "a.b".to_string() }),
        Plan::Stop(domain) if domain == "a.b"
    ));
    assert!(matches!(
        plan(Commands::Rm { domain: "a.b".to_string() }),
        Plan::Remove(domain) if domain == "a.b"
    ));
    assert!(matches!(
        plan(Commands::Logs { domain: None, follow: true, lines: 7 }),
        Plan::Logs { domain: None, follow: true, lines: 7 }
    ));
    assert!(matches!(plan(Commands::Doctor), Plan::Doctor));
    assert!(matches!(
        plan(Commands::Up { file: PathBuf::from("p.yml") }),
        Plan::Up { file, protocol: Some(LocalProtocol::Https), insecure: true }
            if file == PathBuf::from("p.yml")
    ));
    assert!(matches!(
        plan(Commands::Share {
            target: "a.b".to_string(),
            expires: "2h".to_string(),
            password: "pw".to_string(),
        }),
        Plan::Share { protocol: Some(LocalProtocol::Https), insecure: true, expires, .. }
            if expires == "2h"
    ));
    assert!(matches!(plan(Commands::Metrics { port: 9090 }), Plan::Metrics(9090)));
}
