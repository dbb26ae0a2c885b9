use devspace_commands::config::{
    output_result, spawn_result, CommandConfig, DevspaceCommandConfig, DevspaceCommandError,
};
use devspace_commands::start_daemon::StartDaemonCommand;
use std::cell::Cell;
use std::cell::RefCell;

/// What a launcher stub saw of the descriptor it was handed.
fn seen(config: &CommandConfig<'_>) -> (String, Vec<String>) {
    let mut args = Vec::new();
    for token in config.args() {
        args.push(token.to_string());
    }
    (config.binary_name().to_string(), args)
}

#[test]
fn exec_blocking_fails_when_spawn_fails() {
    let command = StartDaemonCommand::new("127.0.0.1:8080".to_string(), true);
    let result = command.exec_blocking(
        |_config| Err::<u32, String>("no such binary".to_string()),
        |process: u32| Ok::<Vec<u8>, String>(vec![process as u8]),
    );
    assert_eq!(result, Err(DevspaceCommandError::Output));
}

#[test]
fn exec_blocking_does_not_wait_after_a_failed_spawn() {
    let waited = Cell::new(false);
    let command = StartDaemonCommand::new("127.0.0.1:8080".to_string(), false);
    let result = command.exec_blocking(
        |_config| Err::<u32, ()>(()),
        |_process: u32| {
            waited.set(true);
            Ok::<(), ()>(())
        },
    );
    assert_eq!(result, Err(DevspaceCommandError::Output));
    assert!(!waited.get());
}

#[test]
fn exec_blocking_fails_when_waiting_fails() {
    let command = StartDaemonCommand::new("127.0.0.1:8080".to_string(), true);
    let result = command.exec_blocking(
        |_config| Ok::<u32, String>(7),
        |_process: u32| Err::<Vec<u8>, String>("broken pipe".to_string()),
    );
    assert_eq!(result, Err(DevspaceCommandError::Output));
}

#[test]
fn exec_blocking_succeeds_with_empty_output() {
    let command = StartDaemonCommand::new("localhost:9000".to_string(), false);
    let result = command.exec_blocking(
        |_config| Ok::<u32, ()>(1),
        |_process: u32| Ok::<Vec<u8>, ()>(Vec::new()),
    );
    assert_eq!(result, Ok(()));
}

#[test]
fn exec_blocking_succeeds_whatever_the_output_holds() {
    let outputs: Vec<(i32, Vec<u8>, Vec<u8>)> = vec![
        (0, b"started".to_vec(), Vec::new()),
        (1, Vec::new(), b"fatal: cannot bind".to_vec()),
        (-9, vec![0, 255, 128], vec![0; 4096]),
    ];
    for output in outputs {
        let command = StartDaemonCommand::new("localhost:9000".to_string(), true);
        let result = command.exec_blocking(
            |_config| Ok::<(), ()>(()),
            |_process: ()| Ok::<(i32, Vec<u8>, Vec<u8>), ()>(output),
        );
        assert_eq!(result, Ok(()));
    }
}

#[test]
fn exec_blocking_hands_spawn_the_descriptor() {
    let handed = RefCell::new(None);
    let command = StartDaemonCommand::new("127.0.0.1:8080".to_string(), true);
    let result = command.exec_blocking(
        |config| {
            *handed.borrow_mut() = Some(seen(&config));
            Ok::<(), ()>(())
        },
        |_process: ()| Ok::<(), ()>(()),
    );
    assert_eq!(result, Ok(()));
    let expected: Vec<String> =
        vec!["pro", "daemon", "start", "--host=127.0.0.1:8080", "--debug=true"]
            .into_iter()
            .map(String::from)
            .collect();
    assert_eq!(handed.into_inner(), Some(("devspace-cli".to_string(), expected)));
}

#[test]
fn exec_blocking_hands_wait_the_spawned_process() {
    let waited_for = Cell::new(0u32);
    let command = StartDaemonCommand::new("localhost:9000".to_string(), false);
    let result = command.exec_blocking(
        |_config| Ok::<u32, ()>(4242),
        |process: u32| {
            waited_for.set(process);
            Ok::<(), ()>(())
        },
    );
    assert_eq!(result, Ok(()));
    assert_eq!(waited_for.get(), 4242);
}

#[test]
fn exec_blocking_calls_each_step_once() {
    let spawned = Cell::new(0u32);
    let waited = Cell::new(0u32);
    let command = StartDaemonCommand::new("localhost:9000".to_string(), false);
    let result = command.exec_blocking(
        |_config| {
            spawned.set(spawned.get() + 1);
            Ok::<(), ()>(())
        },
        |_process: ()| {
            waited.set(waited.get() + 1);
            Ok::<(), ()>(())
        },
    );
    assert_eq!(result, Ok(()));
    assert_eq!(spawned.get(), 1);
    assert_eq!(waited.get(), 1);
}

#[test]
fn command_returns_the_spawned_process() {
    let command = StartDaemonCommand::new("localhost:9000".to_string(), false);
    let result = command.command(|config| Ok::<(String, Vec<String>), ()>(seen(&config)));
    let expected: Vec<String> = vec!["pro", "daemon", "start", "--host=localhost:9000", ""]
        .into_iter()
        .map(String::from)
        .collect();
    assert_eq!(result, Ok(("devspace-cli".to_string(), expected)));
}

#[test]
fn command_fails_when_spawn_fails() {
    let command = StartDaemonCommand::new("localhost:9000".to_string(), true);
    let result = command.command(|_config| Err::<u32, u8>(2));
    assert_eq!(result, Err(DevspaceCommandError::Output));
}

#[test]
fn new_command_leaves_the_command_usable() {
    let command = StartDaemonCommand::new("localhost:9000".to_string(), true);
    let built = command.new_command(|config| Ok::<usize, ()>(config.args().len()));
    assert_eq!(built, Ok(5));
    let failed = command.new_command(|_config| Err::<usize, ()>(()));
    assert_eq!(failed, Err(DevspaceCommandError::Output));
    assert_eq!(command.config().args().len(), 5);
}

#[test]
fn command_and_exec_blocking_hand_out_the_same_descriptor() {
    let built = StartDaemonCommand::new("10.1.2.3:7".to_string(), true)
        .command(|config| Ok::<(String, Vec<String>), ()>(seen(&config)));
    let handed = RefCell::new(None);
    let result = StartDaemonCommand::new("10.1.2.3:7".to_string(), true).exec_blocking(
        |config| {
            *handed.borrow_mut() = Some(seen(&config));
            Ok::<(), ()>(())
        },
        |_process: ()| Ok::<(), ()>(()),
    );
    assert_eq!(result, Ok(()));
    assert_eq!(built.ok(), handed.into_inner());
}

#[test]
fn spawn_result_passes_the_process_on() {
    assert_eq!(spawn_result(Ok::<u32, String>(17)), Ok(17));
    assert_eq!(
        spawn_result(Ok::<Vec<u8>, ()>(vec![1, 2, 3])),
        Ok(vec![1, 2, 3])
    );
}

#[test]
fn spawn_result_turns_every_failure_into_output() {
    assert_eq!(
        spawn_result(Err::<u32, String>("denied".to_string())),
        Err(DevspaceCommandError::Output)
    );
    assert_eq!(spawn_result(Err::<u32, ()>(())), Err(DevspaceCommandError::Output));
}

#[test]
fn output_result_drops_the_output() {
    assert_eq!(output_result(Ok::<Vec<u8>, String>(b"anything".to_vec())), Ok(()));
    assert_eq!(output_result(Ok::<(), ()>(())), Ok(()));
}

#[test]
fn output_result_turns_every_failure_into_output() {
    assert_eq!(
        output_result(Err::<Vec<u8>, String>("killed".to_string())),
        Err(DevspaceCommandError::Output)
    );
    assert_eq!(output_result(Err::<(), i32>(-1)), Err(DevspaceCommandError::Output));
}

#[test]
fn error_can_be_copied_and_compared() {
    let error = DevspaceCommandError::Output;
    let copy = error;
    assert_eq!(error, copy);
    assert_eq!(format!("{:?}", error), "Output");
}

/// A launcher that keeps a record of what it started.
struct RecordingLauncher {
    started: RefCell<Vec<String>>,
}

fn start(launcher: &RecordingLauncher, config: CommandConfig<'_>) -> Result<usize, String> {
    let mut line = config.binary_name().to_string();
    for token in config.args() {
        line.push(' ');
        line.push_str(token);
    }
    launcher.started.borrow_mut().push(line);
    Ok(launcher.started.borrow().len())
}

fn collect(process: usize) -> Result<Vec<u8>, String> {
    Ok(vec![0; process])
}

fn run<C: DevspaceCommandConfig>(
    command: C,
    launcher: &RecordingLauncher,
) -> Result<(), DevspaceCommandError> {
    command.exec_blocking(|config| start(launcher, config), collect)
}

#[test]
fn exec_blocking_runs_any_command_through_a_launcher() {
    let launcher = RecordingLauncher { started: RefCell::new(Vec::new()) };
    let first = run(StartDaemonCommand::new("127.0.0.1:8080".to_string(), true), &launcher);
    let second = run(StartDaemonCommand::new("localhost:9000".to_string(), false), &launcher);
    assert_eq!(first, Ok(()));
    assert_eq!(second, Ok(()));
    assert_eq!(
        launcher.started.into_inner(),
        vec![
            "devspace-cli pro daemon start --host=127.0.0.1:8080 --debug=true".to_string(),
            "devspace-cli pro daemon start --host=localhost:9000 ".to_string(),
        ]
    );
}
