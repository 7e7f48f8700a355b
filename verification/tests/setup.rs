use setup_engine::batch::BatchState;
use setup_engine::command::{CommandFactory, CommandStruct};
use setup_engine::config::Config;
use setup_engine::distribution::DistributionType;
use setup_engine::process::{Invocation, Outcome};
use setup_engine::protocol::{Reply, Request};
use setup_engine::setup::{
    PreparationState, RegistryState, SetupEntry, SetupItem, SetupRegistry, SetupState,
};
use setup_engine::traits::{ExecutableSetup, Repository};
use setup_engine::unit::UnitState;
use setup_engine::utils::Status;

const HOST: DistributionType = DistributionType::Ubuntu;

fn sh(line: &str) -> Request {
    Request::Invoke(Invocation {
        program: "sh".to_string(),
        args: vec!["-c".to_string(), line.to_string()],
        attached: false,
    })
}

fn attached(line: &str) -> Request {
    Request::Invoke(Invocation {
        program: "sh".to_string(),
        args: vec!["-c".to_string(), line.to_string()],
        attached: true,
    })
}

fn report(status: Status, subject: &str) -> Request {
    Request::Report {
        status,
        subject: subject.to_string(),
    }
}

/// A driver that knows which shell lines fail, which checks are
/// satisfied, which variables are set, and what the user types.
struct Script {
    failing: Vec<&'static str>,
    satisfied: Vec<&'static str>,
    set: Vec<&'static str>,
    typed: Vec<&'static str>,
    directories: Vec<&'static str>,
    directory_fails: bool,
}

impl Script {
    fn new() -> Script {
        Script {
            failing: vec![],
            satisfied: vec![],
            set: vec![],
            typed: vec![],
            directories: vec![],
            directory_fails: false,
        }
    }

    fn answer(&mut self, request: &Request) -> Reply {
        match request {
            Request::Report { .. } => Reply::Done,
            Request::Invoke(invocation) => {
                let line = invocation.args[1].as_str();
                if self.failing.contains(&line) {
                    Reply::Outcome(Outcome::exited(1, "", "failed"))
                } else if self.satisfied.contains(&line) {
                    Reply::Outcome(Outcome::exited(0, "there\n", ""))
                } else {
                    Reply::Outcome(Outcome::exited(0, "", ""))
                }
            }
            Request::LookupDirectory(path) => {
                Reply::Found(self.directories.contains(&path.as_str()))
            }
            Request::CreateDirectory(_) => {
                if self.directory_fails {
                    Reply::Failed("Permission denied (os error 13)".to_string())
                } else {
                    Reply::Done
                }
            }
            Request::LookupVariable(name) => Reply::Found(self.set.contains(&name.as_str())),
            Request::AskValue(_) | Request::AskConfirmation { .. } => {
                if self.typed.is_empty() {
                    Reply::Failed("stdin closed".to_string())
                } else {
                    Reply::Line(self.typed.remove(0).to_string())
                }
            }
            Request::SetVariable { .. } => Reply::Done,
        }
    }
}

/// Runs `entry` to its rest and hands back its status with the requests
/// that it made.
fn run_entry(entry: &mut SetupEntry, script: &mut Script) -> (Status, Vec<Request>) {
    let mut requests = Vec::new();
    let mut state = SetupEntry::begin();
    while let Some(request) = entry.request(&state) {
        let reply = script.answer(&request);
        requests.push(request);
        state = entry.setup(&HOST, state, &reply);
    }
    (state.status().unwrap(), requests)
}

/// Runs `registry` to its rest and hands back its status with the
/// requests that it made.
fn run_registry(registry: &mut SetupRegistry, script: &mut Script) -> (Status, Vec<Request>) {
    let mut requests = Vec::new();
    let mut state = registry.begin();
    while let Some(request) = registry.request(&state) {
        let reply = script.answer(&request);
        requests.push(request);
        state = registry.execute(&HOST, state, &reply);
    }
    (registry.status(&state).unwrap(), requests)
}

fn commands(lines: &[&str]) -> Vec<CommandStruct> {
    lines.iter().map(|line| CommandFactory::new(line)).collect()
}

fn configs(lines: &[&str]) -> Option<Vec<Config>> {
    Some(
        lines
            .iter()
            .map(|line| Config::new(CommandFactory::new(line), None))
            .collect(),
    )
}

#[test]
fn test_get_description() {
    let entry = SetupEntry::new(None, vec![], None, None, "Install git");
    assert_eq!(entry.get_description(), "Install git");
    assert_eq!(entry.commands().len(), 0);
    assert_eq!(entry.check(), None);
    assert_eq!(entry.configs(), None);
    assert_eq!(entry.preconditions(), None);
}

#[test]
fn test_first_command_fails_second_still_runs() {
    let mut entry = SetupEntry::new(None, commands(&["first", "second"]), None, None, "two");
    let mut script = Script::new();
    script.failing = vec!["first"];
    let (status, requests) = run_entry(&mut entry, &mut script);
    assert_eq!(status, Status::Failure);
    assert_eq!(
        requests,
        vec![
            report(Status::Running, "two"),
            sh("first"),
            report(Status::Failure, "first"),
            sh("second"),
            report(Status::Success, "second"),
        ]
    );
}

#[test]
fn test_failed_commands_keep_configs_from_running() {
    let mut entry = SetupEntry::new(
        None,
        commands(&["first", "second"]),
        configs(&["configure"]),
        None,
        "entry",
    );
    let mut script = Script::new();
    script.failing = vec!["second"];
    let (status, requests) = run_entry(&mut entry, &mut script);
    assert_eq!(status, Status::Failure);
    assert_eq!(
        requests,
        vec![
            report(Status::Running, "entry"),
            sh("first"),
            report(Status::Success, "first"),
            sh("second"),
            report(Status::Failure, "second"),
        ]
    );
    assert!(!requests.contains(&attached("configure")));
}

#[test]
fn test_commands_then_configs() {
    let mut entry = SetupEntry::new(
        None,
        commands(&["first", "second"]),
        configs(&["configure", "tune"]),
        None,
        "entry",
    );
    let (status, requests) = run_entry(&mut entry, &mut Script::new());
    assert_eq!(status, Status::Success);
    assert_eq!(
        requests,
        vec![
            report(Status::Running, "entry"),
            sh("first"),
            report(Status::Success, "first"),
            sh("second"),
            report(Status::Success, "second"),
            attached("configure"),
            report(Status::Success, "configure"),
            attached("tune"),
            report(Status::Success, "tune"),
        ]
    );
}

#[test]
fn test_failed_config_fails_the_entry_and_the_next_still_runs() {
    let mut entry = SetupEntry::new(
        None,
        commands(&["first"]),
        configs(&["configure", "tune"]),
        None,
        "entry",
    );
    let mut script = Script::new();
    script.failing = vec!["configure"];
    let (status, requests) = run_entry(&mut entry, &mut script);
    assert_eq!(status, Status::Failure);
    assert_eq!(
        requests,
        vec![
            report(Status::Running, "entry"),
            sh("first"),
            report(Status::Success, "first"),
            attached("configure"),
            report(Status::Failure, "configure"),
            attached("tune"),
            report(Status::Success, "tune"),
        ]
    );
}

#[test]
fn test_satisfied_guard_bypasses_commands() {
    let mut entry = SetupEntry::new(
        Some("which git"),
        commands(&["first", "second"]),
        None,
        None,
        "entry",
    );
    let mut script = Script::new();
    script.satisfied = vec!["which git"];
    script.failing = vec!["first", "second"];
    let (status, requests) = run_entry(&mut entry, &mut script);
    assert_eq!(status, Status::Success);
    assert_eq!(
        requests,
        vec![report(Status::Running, "entry"), sh("which git")]
    );
}

#[test]
fn test_satisfied_guard_still_applies_configs() {
    let mut entry = SetupEntry::new(
        Some("which git"),
        commands(&["first"]),
        configs(&["configure"]),
        None,
        "entry",
    );
    let mut script = Script::new();
    script.satisfied = vec!["which git"];
    script.failing = vec!["configure"];
    let (status, requests) = run_entry(&mut entry, &mut script);
    assert_eq!(status, Status::Failure);
    assert_eq!(
        requests,
        vec![
            report(Status::Running, "entry"),
            sh("which git"),
            attached("configure"),
            report(Status::Failure, "configure"),
        ]
    );
}

#[test]
fn test_unsatisfied_guard_runs_commands() {
    let mut entry = SetupEntry::new(Some("which git"), commands(&["first"]), None, None, "entry");
    let (status, requests) = run_entry(&mut entry, &mut Script::new());
    assert_eq!(status, Status::Success);
    assert_eq!(
        requests,
        vec![
            report(Status::Running, "entry"),
            sh("which git"),
            sh("first"),
            report(Status::Success, "first"),
        ]
    );
}

#[test]
fn test_empty_entry_succeeds() {
    let mut entry = SetupEntry::new(None, vec![], None, None, "nothing");
    let (status, requests) = run_entry(&mut entry, &mut Script::new());
    assert_eq!(status, Status::Success);
    assert_eq!(requests, vec![report(Status::Running, "nothing")]);

    let mut entry = SetupEntry::new(None, vec![], Some(vec![]), None, "nothing");
    let (status, _) = run_entry(&mut entry, &mut Script::new());
    assert_eq!(status, Status::Success);
}

fn mixed_commands() -> Vec<CommandStruct> {
    vec![
        CommandStruct::new("pacman -S git", None, Some(DistributionType::ArchLinux), None, None),
        CommandStruct::new("apt install git", None, Some(DistributionType::Ubuntu), None, None),
        CommandFactory::new("git --version"),
        CommandStruct::new("yay -S git", None, Some(DistributionType::ArchLinux), None, None),
        CommandStruct::new("odd", None, Some(DistributionType::Unknown), None, None),
    ]
}

#[test]
fn test_clear_commands() {
    let mut entry = SetupEntry::new(None, mixed_commands(), None, None, "git");
    entry.clear_commands(&DistributionType::Ubuntu);
    assert_eq!(entry.commands().len(), 2);
    assert_eq!(entry.commands()[0].command(), "apt install git");
    assert_eq!(entry.commands()[1].command(), "git --version");
    entry.clear_commands(&DistributionType::Ubuntu);
    assert_eq!(entry.commands().len(), 2);

    let mut entry = SetupEntry::new(None, mixed_commands(), None, None, "git");
    entry.clear_commands(&DistributionType::ArchLinux);
    assert_eq!(entry.commands().len(), 3);
    assert_eq!(entry.commands()[0].command(), "pacman -S git");
    assert_eq!(entry.commands()[1].command(), "git --version");
    assert_eq!(entry.commands()[2].command(), "yay -S git");

    let mut entry = SetupEntry::new(None, mixed_commands(), None, None, "git");
    entry.clear_commands(&DistributionType::Unknown);
    assert_eq!(entry.commands().len(), 2);
    assert_eq!(entry.commands()[0].command(), "git --version");
    assert_eq!(entry.commands()[1].command(), "odd");
}

#[test]
fn test_remove_command() {
    let mut entry = SetupEntry::new(None, commands(&["a", "b", "c"]), None, None, "abc");
    entry.remove_command(1);
    assert_eq!(entry.commands().len(), 2);
    assert_eq!(entry.commands()[0].command(), "a");
    assert_eq!(entry.commands()[1].command(), "c");
    entry.remove_command(0);
    entry.remove_command(0);
    assert_eq!(entry.commands().len(), 0);
}

#[test]
fn test_setup_prunes_the_entry() {
    let mut entry = SetupEntry::new(None, mixed_commands(), None, None, "git");
    let (status, requests) = run_entry(&mut entry, &mut Script::new());
    assert_eq!(status, Status::Success);
    assert_eq!(entry.commands().len(), 2);
    assert_eq!(
        requests,
        vec![
            report(Status::Running, "git"),
            sh("apt install git"),
            report(Status::Success, "apt install git"),
            sh("git --version"),
            report(Status::Success, "git --version"),
        ]
    );
}

fn item(names: &[&str], directory: Option<&str>) -> Option<SetupItem> {
    Some(SetupItem::new(
        Some(names.iter().map(|name| name.to_string()).collect()),
        directory,
    ))
}

#[test]
fn test_preparation_in_full() {
    let mut entry = SetupEntry::new(
        None,
        commands(&["run"]),
        None,
        item(&["TOKEN", "HOME", "EDITOR", "LAST"], Some("/tmp/work/dir")),
        "prepared",
    );
    let mut script = Script::new();
    script.set = vec!["HOME"];
    script.typed = vec!["  secret \n", "Y\n", "vim\n", "no\n", "x", " y "];
    let (status, requests) = run_entry(&mut entry, &mut script);
    assert_eq!(status, Status::Success);
    assert_eq!(
        requests,
        vec![
            report(Status::Running, "prepared"),
            Request::LookupDirectory("/tmp/work/dir".to_string()),
            Request::CreateDirectory("/tmp/work/dir".to_string()),
            Request::LookupVariable("TOKEN".to_string()),
            Request::AskValue("TOKEN".to_string()),
            Request::AskConfirmation {
                name: "TOKEN".to_string(),
                value: "secret".to_string()
            },
            Request::SetVariable {
                name: "TOKEN".to_string(),
                value: "secret".to_string()
            },
            Request::LookupVariable("HOME".to_string()),
            Request::LookupVariable("EDITOR".to_string()),
            Request::AskValue("EDITOR".to_string()),
            Request::AskConfirmation {
                name: "EDITOR".to_string(),
                value: "vim".to_string()
            },
            Request::LookupVariable("LAST".to_string()),
            Request::AskValue("LAST".to_string()),
            Request::AskConfirmation {
                name: "LAST".to_string(),
                value: "x".to_string()
            },
            Request::SetVariable {
                name: "LAST".to_string(),
                value: "x".to_string()
            },
            sh("run"),
            report(Status::Success, "run"),
        ]
    );
}

#[test]
fn test_directory_failure_fails_the_entry_only() {
    let mut entry = SetupEntry::new(
        Some("guard"),
        commands(&["run"]),
        configs(&["configure"]),
        item(&["TOKEN"], Some("/root/forbidden")),
        "forbidden",
    );
    let mut script = Script::new();
    script.directory_fails = true;
    let (status, requests) = run_entry(&mut entry, &mut script);
    assert_eq!(status, Status::Failure);
    assert_eq!(
        requests,
        vec![
            report(Status::Running, "forbidden"),
            Request::LookupDirectory("/root/forbidden".to_string()),
            Request::CreateDirectory("/root/forbidden".to_string()),
        ]
    );
}

#[test]
fn test_directory_that_is_there_is_left_alone() {
    let mut entry = SetupEntry::new(
        None,
        commands(&["run"]),
        None,
        item(&[], Some("/home/user/work")),
        "there",
    );
    let mut script = Script::new();
    script.directories = vec!["/home/user/work"];
    script.directory_fails = true;
    let (status, requests) = run_entry(&mut entry, &mut script);
    assert_eq!(status, Status::Success);
    assert_eq!(
        requests,
        vec![
            report(Status::Running, "there"),
            Request::LookupDirectory("/home/user/work".to_string()),
            sh("run"),
            report(Status::Success, "run"),
        ]
    );
}

#[test]
fn test_entry_is_pruned_once_it_is_prepared() {
    let mut entry = SetupEntry::new(
        None,
        mixed_commands(),
        None,
        item(&["HOME"], Some("/tmp/work")),
        "git",
    );
    let state = SetupEntry::begin();
    let state = entry.setup(&HOST, state, &Reply::Done);
    assert_eq!(state, SetupState::Preparing(PreparationState::Directory));
    let state = entry.setup(&HOST, state, &Reply::Found(false));
    assert_eq!(state, SetupState::Preparing(PreparationState::Creating));
    let state = entry.setup(&HOST, state, &Reply::Done);
    assert_eq!(state, SetupState::Preparing(PreparationState::Lookup(0)));
    assert_eq!(entry.commands().len(), 5);
    let state = entry.setup(&HOST, state, &Reply::Found(true));
    assert_eq!(entry.commands().len(), 2);
    assert_eq!(
        state,
        SetupState::Commands(BatchState {
            index: 0,
            failed: false,
            unit: UnitState::Running
        })
    );
    assert_eq!(entry.request(&state), Some(sh("apt install git")));
}

#[test]
fn test_entry_that_cannot_be_prepared_is_not_pruned() {
    let mut entry = SetupEntry::new(
        None,
        mixed_commands(),
        None,
        item(&[], Some("/root/forbidden")),
        "git",
    );
    let mut script = Script::new();
    script.directory_fails = true;
    let (status, _) = run_entry(&mut entry, &mut script);
    assert_eq!(status, Status::Failure);
    assert_eq!(entry.commands().len(), 5);
}

#[test]
fn test_run_leaves_an_unprepared_entry_alone() {
    let entry = SetupEntry::new(Some("guard"), commands(&["run"]), None, None, "e");
    assert_eq!(
        entry.run(&HOST, SetupState::Announcing, &Reply::Done),
        SetupState::Announcing
    );
    assert_eq!(
        entry.run(
            &HOST,
            SetupState::Preparing(PreparationState::Directory),
            &Reply::Found(true)
        ),
        SetupState::Preparing(PreparationState::Directory)
    );
    let state = entry.run(
        &HOST,
        SetupState::Guard,
        &Reply::Outcome(Outcome::exited(0, "there", "")),
    );
    assert_eq!(state, SetupState::Rested(Status::Success));
    let state = entry.run_commands(
        &HOST,
        BatchState {
            index: 0,
            failed: false,
            unit: UnitState::Running,
        },
        &Reply::Outcome(Outcome::exited(1, "", "")),
    );
    assert_eq!(
        state,
        SetupState::Commands(BatchState {
            index: 0,
            failed: false,
            unit: UnitState::Rested(Status::Failure)
        })
    );
    let state = entry.run_configs(
        &HOST,
        BatchState {
            index: 0,
            failed: true,
            unit: UnitState::Rested(Status::Failure),
        },
        &Reply::Done,
    );
    assert_eq!(state, SetupState::Rested(Status::Failure));
}

#[test]
fn test_unreadable_input_fails_the_entry() {
    let mut entry = SetupEntry::new(None, commands(&["run"]), None, item(&["TOKEN"], None), "e");
    let (status, requests) = run_entry(&mut entry, &mut Script::new());
    assert_eq!(status, Status::Failure);
    assert_eq!(
        requests,
        vec![
            report(Status::Running, "e"),
            Request::LookupVariable("TOKEN".to_string()),
            Request::AskValue("TOKEN".to_string()),
        ]
    );

    let mut entry = SetupEntry::new(None, commands(&["run"]), None, item(&["TOKEN"], None), "e");
    let mut script = Script::new();
    script.typed = vec!["value"];
    let (status, requests) = run_entry(&mut entry, &mut script);
    assert_eq!(status, Status::Failure);
    assert_eq!(requests.len(), 4);
}

#[test]
fn test_declined_value_leaves_the_variable_and_goes_on() {
    let mut entry = SetupEntry::new(None, commands(&["run"]), None, item(&["TOKEN"], None), "e");
    let mut script = Script::new();
    script.typed = vec!["value", "n"];
    let (status, requests) = run_entry(&mut entry, &mut script);
    assert_eq!(status, Status::Success);
    assert_eq!(
        requests,
        vec![
            report(Status::Running, "e"),
            Request::LookupVariable("TOKEN".to_string()),
            Request::AskValue("TOKEN".to_string()),
            Request::AskConfirmation {
                name: "TOKEN".to_string(),
                value: "value".to_string()
            },
            sh("run"),
            report(Status::Success, "run"),
        ]
    );
}

#[test]
fn test_preparation_states() {
    let item = SetupItem::new(Some(vec!["A".to_string()]), Some("dir"));
    let state = item.begin();
    assert_eq!(state, PreparationState::Directory);
    assert_eq!(
        item.request(&state),
        Some(Request::LookupDirectory("dir".to_string()))
    );
    assert_eq!(
        item.advance(state, &Reply::Done),
        PreparationState::Directory
    );
    assert_eq!(
        item.ensure_working_dir(PreparationState::Directory, &Reply::Found(true)),
        PreparationState::Lookup(0)
    );
    let state = item.ensure_working_dir(PreparationState::Directory, &Reply::Found(false));
    assert_eq!(state, PreparationState::Creating);
    assert_eq!(
        item.request(&state),
        Some(Request::CreateDirectory("dir".to_string()))
    );
    assert_eq!(
        item.ensure_working_dir(PreparationState::Creating, &Reply::Failed("no".to_string())),
        PreparationState::Failed
    );
    assert_eq!(
        item.ensure_working_dir(PreparationState::Creating, &Reply::Found(true)),
        PreparationState::Creating
    );
    assert_eq!(
        item.ensure_working_dir(PreparationState::Lookup(0), &Reply::Done),
        PreparationState::Lookup(0)
    );
    let state = item.ensure_working_dir(state, &Reply::Done);
    assert_eq!(state, PreparationState::Lookup(0));
    assert_eq!(
        item.ensure_env_vars(PreparationState::Lookup(0), &Reply::Done),
        PreparationState::Lookup(0)
    );
    assert_eq!(
        item.ensure_env_vars(PreparationState::Lookup(0), &Reply::Found(true)),
        PreparationState::Ready
    );
    let state = item.ensure_env_vars(state, &Reply::Found(false));
    assert_eq!(state, PreparationState::Value(0));
    let state = item.advance(state, &Reply::Line(" v ".to_string()));
    assert_eq!(state, PreparationState::Confirmation(0, "v".to_string()));
    let state = item.advance(state, &Reply::Line("y".to_string()));
    assert_eq!(state, PreparationState::Store(0, "v".to_string()));
    assert_eq!(
        item.request(&state),
        Some(Request::SetVariable {
            name: "A".to_string(),
            value: "v".to_string()
        })
    );
    let state = item.advance(state, &Reply::Done);
    assert_eq!(state, PreparationState::Ready);
    assert_eq!(item.request(&state), None);
    assert_eq!(item.advance(state, &Reply::Done), PreparationState::Ready);
    assert_eq!(item.request(&PreparationState::Failed), None);
    assert_eq!(item.request(&PreparationState::Lookup(1)), None);
    assert_eq!(
        item.advance(PreparationState::Lookup(1), &Reply::Found(true)),
        PreparationState::Lookup(1)
    );
    assert_eq!(
        item.advance(PreparationState::Store(usize::MAX, "v".to_string()), &Reply::Done),
        PreparationState::Store(usize::MAX, "v".to_string())
    );

    let bare = SetupItem::new(None, None);
    assert_eq!(bare.begin(), PreparationState::Ready);
    assert_eq!(bare.request(&PreparationState::Directory), None);
    assert_eq!(bare.request(&PreparationState::Creating), None);
    assert_eq!(
        bare.advance(PreparationState::Directory, &Reply::Found(false)),
        PreparationState::Directory
    );
}

#[test]
fn test_entry_ignores_replies_that_do_not_answer() {
    let mut entry = SetupEntry::new(Some("guard"), commands(&["run"]), None, None, "e");
    let state = SetupEntry::begin();
    assert_eq!(state, SetupState::Announcing);
    assert_eq!(state.status(), None);
    let same = entry.setup(&HOST, state, &Reply::Found(true));
    assert_eq!(same, SetupState::Announcing);
    let state = entry.setup(&HOST, same, &Reply::Done);
    assert_eq!(state, SetupState::Guard);
    let same = entry.setup(&HOST, state, &Reply::Done);
    assert_eq!(same, SetupState::Guard);
    let state = entry.setup(&HOST, same, &Reply::Outcome(Outcome::exited(0, "", "")));
    assert_eq!(
        state,
        SetupState::Commands(BatchState {
            index: 0,
            failed: false,
            unit: UnitState::Running
        })
    );
    let rested = entry.setup(&HOST, SetupState::Rested(Status::Failure), &Reply::Done);
    assert_eq!(rested, SetupState::Rested(Status::Failure));
    assert_eq!(rested.status(), Some(Status::Failure));
    assert_eq!(entry.request(&rested), None);
}

#[test]
fn test_registry_runs_every_entry_in_order() {
    let mut registry = SetupRegistry::new();
    registry.add(SetupEntry::new(None, commands(&["a"]), None, None, "first"));
    registry.add(SetupEntry::new(
        None,
        commands(&["b"]),
        None,
        item(&[], Some("/nowhere")),
        "second",
    ));
    registry.add(SetupEntry::new(None, mixed_commands(), None, None, "third"));
    assert_eq!(registry.entries().len(), 3);
    assert_eq!(registry.entries()[0].get_description(), "first");
    let mut script = Script::new();
    script.directory_fails = true;
    let (status, requests) = run_registry(&mut registry, &mut script);
    assert_eq!(status, Status::Failure);
    assert_eq!(registry.entries()[2].commands().len(), 2);
    assert_eq!(
        requests,
        vec![
            report(Status::Running, "first"),
            sh("a"),
            report(Status::Success, "a"),
            report(Status::Success, "first"),
            report(Status::Running, "second"),
            Request::LookupDirectory("/nowhere".to_string()),
            Request::CreateDirectory("/nowhere".to_string()),
            report(Status::Failure, "second"),
            report(Status::Running, "third"),
            sh("apt install git"),
            report(Status::Success, "apt install git"),
            sh("git --version"),
            report(Status::Success, "git --version"),
            report(Status::Success, "third"),
        ]
    );
}

#[test]
fn test_registry_without_failures_succeeds() {
    let mut registry = SetupRegistry::new();
    let (status, requests) = run_registry(&mut registry, &mut Script::new());
    assert_eq!(status, Status::Success);
    assert_eq!(requests, vec![]);

    registry.add(SetupEntry::new(None, commands(&["a"]), None, None, "only"));
    let (status, _) = run_registry(&mut registry, &mut Script::new());
    assert_eq!(status, Status::Success);
}

#[test]
fn test_registry_states() {
    let mut registry = SetupRegistry::new();
    registry.add(SetupEntry::new(None, vec![], None, None, "only"));
    let state = registry.begin();
    assert_eq!(
        state,
        RegistryState {
            index: 0,
            failed: false,
            entry: SetupState::Announcing
        }
    );
    assert_eq!(registry.status(&state), None);
    let state = registry.execute(&HOST, state, &Reply::Found(false));
    assert_eq!(state.entry, SetupState::Announcing);
    let state = registry.execute(&HOST, state, &Reply::Done);
    assert_eq!(state.entry, SetupState::Rested(Status::Success));
    assert_eq!(registry.request(&state), Some(report(Status::Success, "only")));
    let state = registry.execute(&HOST, state, &Reply::Line("x".to_string()));
    assert_eq!(state.entry, SetupState::Rested(Status::Success));
    assert_eq!(state.index, 0);
    let state = registry.execute(&HOST, state, &Reply::Done);
    assert_eq!(state.index, 1);
    assert_eq!(registry.request(&state), None);
    assert_eq!(registry.status(&state), Some(Status::Success));
    let state = registry.execute(&HOST, state, &Reply::Done);
    assert_eq!(state.index, 1);
    assert_eq!(registry.status(&state), Some(Status::Success));
}
