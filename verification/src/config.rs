//! Command descriptors, the error a command can end in, and the contract
//! shared by every invokable command.
//!
//! Nothing here starts a process. A command describes the invocation it
//! stands for; the two steps that touch the host environment, spawning the
//! process and waiting for its output, are handed in by the caller as
//! functions. The contracts below say what a command does with whatever those
//! functions return.

use vstd::prelude::*;

verus! {

/// The ways in which running a command can fail.
#[derive(Debug, Clone, Copy, PartialEq, Eq, Structural)]
pub enum DevspaceCommandError {
    /// The process could not be spawned, or waiting for its output failed.
    Output,
}

/// Mathematical content of a command descriptor.
pub struct CommandConfigView {
    /// Name of the executable.
    pub binary_name: Seq<char>,
    /// The argument tokens, in the order in which the process receives them.
    pub args: Seq<Seq<char>>,
}

/// The characters of each token of `tokens`, in the same order.
pub open spec fn token_views(tokens: Seq<&str>) -> Seq<Seq<char>> {
    Seq::new(tokens.len(), |i: int| tokens[i]@)
}

/// Describes one process invocation: which executable to run, and the ordered
/// argument tokens to hand to it. A descriptor cannot be changed once built.
pub struct CommandConfig<'a> {
    binary_name: &'static str,
    args: Vec<&'a str>,
}

impl<'a> View for CommandConfig<'a> {
    type V = CommandConfigView;

    closed spec fn view(&self) -> CommandConfigView {
        CommandConfigView { binary_name: self.binary_name@, args: token_views(self.args@) }
    }
}

impl<'a> CommandConfig<'a> {
    /// Describes the invocation of `binary_name` with `args`. The tokens are
    /// taken as they are: none is dropped, reordered or rewritten, an empty
    /// one included.
    pub fn new(binary_name: &'static str, args: Vec<&'a str>) -> (config: Self)
        ensures
            config@.binary_name == binary_name@,
            config@.args == token_views(args@),
    {
        CommandConfig { binary_name, args }
    }

    /// Name of the executable to run.
    pub fn binary_name(&self) -> (name: &'static str)
        ensures
            name@ == self@.binary_name,
    {
        self.binary_name
    }

    /// The argument tokens, in order.
    pub fn args(&self) -> (args: &Vec<&'a str>)
        ensures
            token_views(args@) == self@.args,
    {
        &self.args
    }
}

/// What becomes of the outcome of spawning a process: the handle is passed
/// on untouched, and every failure becomes [`DevspaceCommandError::Output`].
pub open spec fn spawn_result_spec<P, E>(outcome: Result<P, E>) -> Result<
    P,
    DevspaceCommandError,
> {
    match outcome {
        Ok(process) => Ok(process),
        Err(_) => Err(DevspaceCommandError::Output),
    }
}

/// What becomes of the outcome of waiting for a process: captured output is
/// dropped, whatever it holds, and every failure becomes
/// [`DevspaceCommandError::Output`].
pub open spec fn output_result_spec<O, E>(outcome: Result<O, E>) -> Result<
    (),
    DevspaceCommandError,
> {
    match outcome {
        Ok(_) => Ok(()),
        Err(_) => Err(DevspaceCommandError::Output),
    }
}

/// Turns the outcome of spawning a process into the result of building a
/// command.
pub fn spawn_result<P, E>(outcome: Result<P, E>) -> (result: Result<P, DevspaceCommandError>)
    ensures
        result == spawn_result_spec(outcome),
{
    match outcome {
        Ok(process) => Ok(process),
        Err(_) => Err(DevspaceCommandError::Output),
    }
}

/// Turns the outcome of waiting for a process into the result of executing a
/// command.
pub fn output_result<O, E>(outcome: Result<O, E>) -> (result: Result<(), DevspaceCommandError>)
    ensures
        result == output_result_spec(outcome),
{
    match outcome {
        Ok(_) => Ok(()),
        Err(_) => Err(DevspaceCommandError::Output),
    }
}

/// `spawn` may be called with every descriptor whose content is `descriptor`.
pub open spec fn spawn_accepts<P, E, S: FnOnce(CommandConfig<'_>) -> Result<P, E>>(
    spawn: S,
    descriptor: CommandConfigView,
) -> bool {
    forall|config: CommandConfig<'_>|
        config@ == descriptor ==> #[trigger] spawn.requires((config,))
}

/// `spawn`, called with a descriptor whose content is `descriptor`, may return
/// `outcome`.
pub open spec fn spawn_gives<P, E, S: FnOnce(CommandConfig<'_>) -> Result<P, E>>(
    spawn: S,
    descriptor: CommandConfigView,
    outcome: Result<P, E>,
) -> bool {
    exists|config: CommandConfig<'_>|
        config@ == descriptor && #[trigger] spawn.ensures((config,), outcome)
}

/// `result` is what building the command described by `descriptor` comes to
/// for some outcome of `spawn`.
pub open spec fn builds_to<P, E, S: FnOnce(CommandConfig<'_>) -> Result<P, E>>(
    spawn: S,
    descriptor: CommandConfigView,
    result: Result<P, DevspaceCommandError>,
) -> bool {
    exists|outcome: Result<P, E>| #[trigger]
        spawn_gives(spawn, descriptor, outcome) && result == spawn_result_spec(outcome)
}

/// `wait` may be called with every process that building the command
/// described by `descriptor` may return.
pub open spec fn wait_accepts<P, O, E1, E2, S, W>(
    spawn: S,
    wait: W,
    descriptor: CommandConfigView,
) -> bool where S: FnOnce(CommandConfig<'_>) -> Result<P, E1>, W: FnOnce(P) -> Result<O, E2> {
    forall|process: P|
        builds_to(spawn, descriptor, Ok::<P, DevspaceCommandError>(process))
            ==> #[trigger] wait.requires((process,))
}

/// `result` is what waiting for `process` comes to for some outcome of `wait`.
pub open spec fn waits_to<P, O, E, W: FnOnce(P) -> Result<O, E>>(
    wait: W,
    process: P,
    result: Result<(), DevspaceCommandError>,
) -> bool {
    exists|outcome: Result<O, E>| #[trigger]
        wait.ensures((process,), outcome) && result == output_result_spec(outcome)
}

/// `result` is what executing the command described by `descriptor` comes to:
/// the command is built as [`builds_to`] says; a failure to build is the
/// result, and a process that was built is waited for as [`waits_to`] says.
pub open spec fn runs_to<P, O, E1, E2, S, W>(
    spawn: S,
    wait: W,
    descriptor: CommandConfigView,
    result: Result<(), DevspaceCommandError>,
) -> bool where S: FnOnce(CommandConfig<'_>) -> Result<P, E1>, W: FnOnce(P) -> Result<O, E2> {
    exists|built: Result<P, DevspaceCommandError>| #[trigger]
        builds_to(spawn, descriptor, built) && match built {
            Ok(process) => waits_to(wait, process, result),
            Err(error) => result == Err::<(), DevspaceCommandError>(error),
        }
}

/// The contract of an invokable command: a value that can describe the
/// process invocation it stands for, and that can be built and executed
/// through a process launcher.
///
/// The launcher is given as two functions. `spawn` resolves the executable
/// named in a descriptor and starts it with the descriptor's arguments; `wait`
/// takes the process that `spawn` handed back and waits until it has ended
/// and its output is captured. Each is called at most once, and a failure of
/// either ends the operation at once: nothing is tried again.
pub trait DevspaceCommandConfig: Sized {
    /// Content of the descriptor of this command.
    spec fn descriptor(&self) -> CommandConfigView;

    /// Describes the invocation that this command stands for. The command is
    /// only read: the same command gives the same descriptor every time.
    fn config(&self) -> (config: CommandConfig<'_>)
        ensures
            config@ == self.descriptor(),
    ;

    /// Hands the descriptor of this command to `spawn` and returns the process
    /// that comes back, not yet waited for. If `spawn` fails, the result is
    /// [`DevspaceCommandError::Output`].
    fn new_command<P, E, S>(&self, spawn: S) -> (result: Result<P, DevspaceCommandError>) where
        S: FnOnce(CommandConfig<'_>) -> Result<P, E>,

        requires
            spawn_accepts(spawn, self.descriptor()),
        ensures
            builds_to(spawn, self.descriptor(), result),
    {
        let config = self.config();
        let ghost handed = config;
        let outcome = spawn(config);
        assert(spawn_gives(spawn, self.descriptor(), outcome)) by {
            assert(spawn.ensures((handed,), outcome));
        }
        spawn_result(outcome)
    }

    /// Executes this command, which is used up by it: builds the process as
    /// [`Self::new_command`] does, then hands it to `wait`. Returns `Ok` if
    /// both steps succeed, whatever output was captured, and
    /// [`DevspaceCommandError::Output`] if either fails; `wait` is not called
    /// after a failed `spawn`.
    fn exec_blocking<P, O, E1, E2, S, W>(self, spawn: S, wait: W) -> (result: Result<
        (),
        DevspaceCommandError,
    >) where S: FnOnce(CommandConfig<'_>) -> Result<P, E1>, W: FnOnce(P) -> Result<O, E2>
        requires
            spawn_accepts(spawn, self.descriptor()),
            wait_accepts(spawn, wait, self.descriptor()),
        ensures
            runs_to(spawn, wait, self.descriptor(), result),
    {
        match self.new_command(spawn) {
            Ok(process) => {
                let outcome = wait(process);
                assert(waits_to(wait, process, output_result_spec(outcome))) by {
                    assert(wait.ensures((process,), outcome));
                }
                output_result(outcome)
            },
            Err(error) => Err(error),
        }
    }
}

/// A command is only read when it describes itself, so describing it again
/// changes nothing: any two descriptors that [`DevspaceCommandConfig::config`]
/// can return for one command have the same executable name and the same
/// arguments in the same order.
pub proof fn config_is_repeatable<'a, C: DevspaceCommandConfig>(
    command: C,
    first: CommandConfig<'a>,
    second: CommandConfig<'a>,
)
    requires
        call_ensures(C::config, (&command,), first),
        call_ensures(C::config, (&command,), second),
    ensures
        first@ == second@,
{
}

/// A launcher that cannot spawn makes every execution end in
/// [`DevspaceCommandError::Output`], whatever `wait` would have done.
pub proof fn failed_spawn_is_output_error<P, O, E1, E2, S, W>(
    spawn: S,
    wait: W,
    descriptor: CommandConfigView,
    result: Result<(), DevspaceCommandError>,
) where S: FnOnce(CommandConfig<'_>) -> Result<P, E1>, W: FnOnce(P) -> Result<O, E2>
    requires
        runs_to(spawn, wait, descriptor, result),
        forall|config: CommandConfig<'_>, outcome: Result<P, E1>| #[trigger]
            spawn.ensures((config,), outcome) ==> outcome is Err,
    ensures
        result == Err::<(), DevspaceCommandError>(DevspaceCommandError::Output),
{
}

/// A launcher whose processes never yield their output makes every execution
/// end in [`DevspaceCommandError::Output`], whether or not a process was
/// spawned.
pub proof fn failed_wait_is_output_error<P, O, E1, E2, S, W>(
    spawn: S,
    wait: W,
    descriptor: CommandConfigView,
    result: Result<(), DevspaceCommandError>,
) where S: FnOnce(CommandConfig<'_>) -> Result<P, E1>, W: FnOnce(P) -> Result<O, E2>
    requires
        runs_to(spawn, wait, descriptor, result),
        forall|process: P, outcome: Result<O, E2>| #[trigger]
            wait.ensures((process,), outcome) ==> outcome is Err,
    ensures
        result == Err::<(), DevspaceCommandError>(DevspaceCommandError::Output),
{
}

/// A launcher that always spawns and always captures output makes every
/// execution succeed. Nothing is asked of the output: it is dropped unread.
pub proof fn captured_output_is_success<P, O, E1, E2, S, W>(
    spawn: S,
    wait: W,
    descriptor: CommandConfigView,
    result: Result<(), DevspaceCommandError>,
) where S: FnOnce(CommandConfig<'_>) -> Result<P, E1>, W: FnOnce(P) -> Result<O, E2>
    requires
        runs_to(spawn, wait, descriptor, result),
        forall|config: CommandConfig<'_>, outcome: Result<P, E1>| #[trigger]
            spawn.ensures((config,), outcome) ==> outcome is Ok,
        forall|process: P, outcome: Result<O, E2>| #[trigger]
            wait.ensures((process,), outcome) ==> outcome is Ok,
    ensures
        result == Ok::<(), DevspaceCommandError>(()),
{
}

} // verus!
