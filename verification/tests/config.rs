use setup_engine::command::{CommandFactory, CommandStruct, Shell};
use setup_engine::config::{Config, ConfigRepository};
use setup_engine::distribution::DistributionType;
use setup_engine::process::{Invocation, Outcome};
use setup_engine::protocol::{Reply, Request};
use setup_engine::traits::{
    CommandRunner, ConfigError, Configurator, ErrorHandler, ProcessRunner, Repository,
};
use setup_engine::process::CommandError;
use setup_engine::unit::UnitState;
use setup_engine::utils::Status;

fn line(program: &str, line: &str, attached: bool) -> Invocation {
    Invocation {
        program: program.to_string(),
        args: vec!["-c".to_string(), line.to_string()],
        attached,
    }
}

/// Applies `config` to its rest, answering each invocation by `respond`.
fn apply(
    config: &Config,
    host: &DistributionType,
    respond: &dyn Fn(&Invocation) -> Outcome,
) -> (Status, Vec<Invocation>) {
    let mut invoked = Vec::new();
    let mut state = config.before_run(host);
    while let Some(invocation) = config.next_command(&state) {
        let outcome = respond(&invocation);
        invoked.push(invocation);
        state = config.apply(host, state, &outcome);
    }
    (state.status().unwrap(), invoked)
}

fn satisfied_by(check: &'static str) -> impl Fn(&Invocation) -> Outcome {
    move |invocation: &Invocation| {
        if invocation.args[1] == check {
            Outcome::exited(0, "yes\n", "")
        } else {
            Outcome::exited(0, "", "")
        }
    }
}

#[test]
fn test_config_runs_attached() {
    let config = Config::new(CommandFactory::new("vim ~/.vimrc"), None);
    assert!(config.is_run_spawn());
    assert_eq!(config.setup_command(), line("sh", "vim ~/.vimrc", true));
    assert_eq!(config.command(), &CommandFactory::new("vim ~/.vimrc"));
    assert_eq!(config.idempotency_check(), None);
    let (status, invoked) = apply(&config, &DistributionType::Unknown, &|_| {
        Outcome::exited(0, "", "")
    });
    assert_eq!(status, Status::Success);
    assert_eq!(invoked, vec![line("sh", "vim ~/.vimrc", true)]);
}

#[test]
fn test_config_failure() {
    let config = Config::new(
        CommandStruct::new("chsh -s /bin/zsh", Some(Shell::Bash), None, None, Some(false)),
        None,
    );
    let (status, invoked) = apply(&config, &DistributionType::Unknown, &|_| {
        Outcome::exited(1, "", "")
    });
    assert_eq!(status, Status::Failure);
    assert_eq!(invoked, vec![line("bash", "chsh -s /bin/zsh", true)]);
}

#[test]
fn test_config_check_satisfied_passes_without_the_unit() {
    let unit = CommandStruct::new(
        "chsh -s /bin/zsh",
        None,
        Some(DistributionType::ArchLinux),
        Some("unit-check"),
        None,
    );
    let config = Config::new(unit, Some("config-check"));
    assert_eq!(config.idempotency_check(), Some("config-check"));
    for host in [DistributionType::ArchLinux, DistributionType::Ubuntu] {
        assert_eq!(config.before_run(&host), UnitState::Checking);
        let (status, invoked) = apply(&config, &host, &satisfied_by("config-check"));
        assert_eq!(status, Status::Passed);
        assert_eq!(invoked, vec![line("sh", "config-check", false)]);
    }
}

#[test]
fn test_config_checks_are_independent() {
    let unit = CommandStruct::new(
        "chsh -s /bin/zsh",
        None,
        Some(DistributionType::ArchLinux),
        Some("unit-check"),
        None,
    );
    let config = Config::new(unit, Some("config-check"));

    let (status, invoked) = apply(&config, &DistributionType::ArchLinux, &satisfied_by("unit-check"));
    assert_eq!(status, Status::Passed);
    assert_eq!(
        invoked,
        vec![
            line("sh", "config-check", false),
            line("sh", "unit-check", false)
        ]
    );

    let (status, invoked) = apply(&config, &DistributionType::ArchLinux, &satisfied_by("none"));
    assert_eq!(status, Status::Success);
    assert_eq!(
        invoked,
        vec![
            line("sh", "config-check", false),
            line("sh", "unit-check", false),
            line("sh", "chsh -s /bin/zsh", true),
        ]
    );

    let (status, invoked) = apply(&config, &DistributionType::Ubuntu, &satisfied_by("none"));
    assert_eq!(status, Status::Skipped);
    assert_eq!(invoked, vec![line("sh", "config-check", false)]);
}

#[test]
fn test_config_without_check_skips_at_once() {
    let unit = CommandStruct::new("ls", None, Some(DistributionType::ArchLinux), None, None);
    let config = Config::new(unit, None);
    assert_eq!(
        config.before_run(&DistributionType::Unknown),
        UnitState::Rested(Status::Skipped)
    );
    assert_eq!(
        config.before_run(&DistributionType::ArchLinux),
        UnitState::Running
    );
}

#[test]
fn test_revert_is_unsupported() {
    let config = Config::new(CommandFactory::new("ls"), None);
    assert_eq!(config.revert(), Err(ConfigError::RevertUnsupported));
    assert_eq!(
        ConfigError::RevertUnsupported.to_string(),
        "Reverting a configuration is not supported"
    );
}

#[test]
fn test_config_error_handler() {
    assert_eq!(
        Config::handle_command_error("vim: command not found"),
        CommandError::NotFound
    );
    assert_eq!(
        Config::handle_command_error("E37: No write since last change"),
        CommandError::ExecutionFailed
    );
}

#[test]
fn test_config_repository() {
    let mut repository = ConfigRepository::new();
    repository.add(Config::new(CommandFactory::new("first"), None));
    repository.add(Config::new(CommandFactory::new("second"), Some("check")));
    let host = DistributionType::Unknown;
    let mut requests = Vec::new();
    let mut state = repository.begin(&host);
    while let Some(request) = repository.request(&state) {
        let reply = match &request {
            Request::Invoke(invocation) => {
                if invocation.args[1] == "first" {
                    Reply::Outcome(Outcome::exited(1, "", ""))
                } else {
                    Reply::Outcome(Outcome::exited(0, "", ""))
                }
            }
            _ => Reply::Done,
        };
        requests.push(request);
        state = repository.run(&host, state, &reply);
    }
    assert_eq!(repository.status(&state), Some(Status::Failure));
    assert_eq!(
        requests,
        vec![
            Request::Invoke(line("sh", "first", true)),
            Request::Report {
                status: Status::Failure,
                subject: "first".to_string()
            },
            Request::Invoke(line("sh", "check", false)),
            Request::Invoke(line("sh", "second", true)),
            Request::Report {
                status: Status::Success,
                subject: "second".to_string()
            },
        ]
    );
}
