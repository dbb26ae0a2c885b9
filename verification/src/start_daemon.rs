//! The command that starts the DevSpace daemon.

use crate::config::{
    builds_to, spawn_accepts, CommandConfig, CommandConfigView, DevspaceCommandConfig,
    DevspaceCommandError,
};
use crate::constants::{
    DEVSPACE_BINARY_NAME, DEVSPACE_COMMAND_DAEMON, DEVSPACE_COMMAND_PRO, DEVSPACE_COMMAND_START,
    FLAG_DEBUG, FLAG_HOST,
};
use vstd::prelude::*;

verus! {

/// The token that tells the daemon which host to use: the flag's name, `=`,
/// and the address exactly as it was given.
pub open spec fn host_flag_token(host: Seq<char>) -> Seq<char> {
    FLAG_HOST@ + "="@ + host
}

/// The token that stands where the debug flag is expected: the flag set to
/// `true` when debug output is wanted, and an empty token when it is not.
pub open spec fn debug_flag_token(debug: bool) -> Seq<char> {
    if debug {
        FLAG_DEBUG@ + "=true"@
    } else {
        Seq::empty()
    }
}

/// The arguments that start the daemon for `host`, in the order in which the
/// executable expects them.
pub open spec fn start_daemon_args(host: Seq<char>, debug: bool) -> Seq<Seq<char>> {
    seq![
        DEVSPACE_COMMAND_PRO@,
        DEVSPACE_COMMAND_DAEMON@,
        DEVSPACE_COMMAND_START@,
        host_flag_token(host),
        debug_flag_token(debug),
    ]
}

/// Content of the descriptor that starts the daemon for `host`.
pub open spec fn start_daemon_descriptor(host: Seq<char>, debug: bool) -> CommandConfigView {
    CommandConfigView { binary_name: DEVSPACE_BINARY_NAME@, args: start_daemon_args(host, debug) }
}

/// Starts the DevSpace daemon for one host, with or without debug output.
///
/// The command keeps the two flag tokens it was made with, already
/// formatted. Every value of this type stands for exactly one pair of a host
/// and a debug switch, which [`Self::host`] and [`Self::debug`] name.
pub struct StartDaemonCommand {
    host_flag: String,
    debug_flag: String,
}

impl StartDaemonCommand {
    #[verifier::type_invariant]
    closed spec fn well_formed(&self) -> bool {
        &&& self.host_flag@ == host_flag_token(self.host())
        &&& self.debug_flag@ == debug_flag_token(self.debug())
    }

    /// The host address that this command was made with.
    pub closed spec fn host(&self) -> Seq<char> {
        self.host_flag@.skip(host_flag_token(Seq::empty()).len() as int)
    }

    /// Whether this command asks for debug output.
    pub closed spec fn debug(&self) -> bool {
        self.debug_flag@.len() > 0
    }

    /// Makes the command that starts the daemon for `host`. Every host is
    /// accepted, and none is escaped, trimmed or otherwise changed.
    pub fn new(host: String, debug: bool) -> (command: Self)
        ensures
            command.host() == host@,
            command.debug() == debug,
            command.descriptor() == start_daemon_descriptor(host@, debug),
    {
        let debug_flag = if debug {
            String::from_str(FLAG_DEBUG).concat("=true")
        } else {
            String::new()
        };
        let host_flag = String::from_str(FLAG_HOST).concat("=").concat(host.as_str());
        proof {
            reveal_strlit("=true");
            assert(host_flag@.skip(host_flag_token(Seq::empty()).len() as int) =~= host@);
        }
        StartDaemonCommand { host_flag, debug_flag }
    }

    /// Hands the descriptor of this command to `spawn` and returns the process
    /// that comes back, not yet waited for, so that the caller can choose how
    /// to run it. The command is used up. If `spawn` fails, the result is
    /// [`DevspaceCommandError::Output`].
    pub fn command<P, E, S>(self, spawn: S) -> (result: Result<P, DevspaceCommandError>) where
        S: FnOnce(CommandConfig<'_>) -> Result<P, E>,

        requires
            spawn_accepts(spawn, self.descriptor()),
        ensures
            builds_to(spawn, self.descriptor(), result),
    {
        self.new_command(spawn)
    }
}

impl DevspaceCommandConfig for StartDaemonCommand {
    open spec fn descriptor(&self) -> CommandConfigView {
        start_daemon_descriptor(self.host(), self.debug())
    }

    fn config(&self) -> (config: CommandConfig<'_>) {
        proof {
            use_type_invariant(self);
        }
        let args = vec![
            DEVSPACE_COMMAND_PRO,
            DEVSPACE_COMMAND_DAEMON,
            DEVSPACE_COMMAND_START,
            self.host_flag.as_str(),
            self.debug_flag.as_str(),
        ];
        let config = CommandConfig::new(DEVSPACE_BINARY_NAME, args);
        assert(config@.args =~= start_daemon_args(self.host(), self.debug()));
        config
    }
}

/// Whatever the host and the debug switch, the daemon is started with five
/// arguments, of which the first three are the subcommands `pro`, `daemon`
/// and `start`, in that order.
pub proof fn args_begin_with_subcommands(host: Seq<char>, debug: bool)
    ensures
        start_daemon_args(host, debug).len() == 5,
        start_daemon_args(host, debug)[0] == seq!['p', 'r', 'o'],
        start_daemon_args(host, debug)[1] == seq!['d', 'a', 'e', 'm', 'o', 'n'],
        start_daemon_args(host, debug)[2] == seq!['s', 't', 'a', 'r', 't'],
{
    reveal_strlit("pro");
    reveal_strlit("daemon");
    reveal_strlit("start");
    assert(DEVSPACE_COMMAND_PRO@ =~= seq!['p', 'r', 'o']);
    assert(DEVSPACE_COMMAND_DAEMON@ =~= seq!['d', 'a', 'e', 'm', 'o', 'n']);
    assert(DEVSPACE_COMMAND_START@ =~= seq!['s', 't', 'a', 'r', 't']);
}

/// The fourth argument is `--host=` followed by the host, character for
/// character: nothing is escaped, trimmed or left out, so the host can be
/// read back from the token. The debug switch has no part in it.
pub proof fn host_token_keeps_host(host: Seq<char>, debug: bool)
    ensures
        start_daemon_args(host, debug)[3] == seq!['-', '-', 'h', 'o', 's', 't', '='] + host,
        start_daemon_args(host, debug)[3].len() == 7 + host.len(),
        start_daemon_args(host, debug)[3].skip(7) == host,
{
    reveal_strlit("--host");
    reveal_strlit("=");
    let token = start_daemon_args(host, debug)[3];
    assert(FLAG_HOST@ + "="@ =~= seq!['-', '-', 'h', 'o', 's', 't', '=']);
    assert(token =~= seq!['-', '-', 'h', 'o', 's', 't', '='] + host);
    assert(token.skip(7) =~= host);
}

/// The fifth argument is `--debug=true` when debug output is wanted and an
/// empty token when it is not. The empty token keeps its place: the number of
/// arguments, and every other argument, are the same either way.
pub proof fn debug_token_is_flag_or_empty(host: Seq<char>)
    ensures
        start_daemon_args(host, true)[4] == seq![
            '-',
            '-',
            'd',
            'e',
            'b',
            'u',
            'g',
            '=',
            't',
            'r',
            'u',
            'e',
        ],
        start_daemon_args(host, false)[4] == Seq::<char>::empty(),
        start_daemon_args(host, true).len() == start_daemon_args(host, false).len(),
        start_daemon_args(host, true).take(4) == start_daemon_args(host, false).take(4),
{
    reveal_strlit("--debug");
    reveal_strlit("=true");
    assert(FLAG_DEBUG@ + "=true"@ =~= seq![
        '-',
        '-',
        'd',
        'e',
        'b',
        'u',
        'g',
        '=',
        't',
        'r',
        'u',
        'e',
    ]);
    assert(start_daemon_args(host, true).take(4) =~= start_daemon_args(host, false).take(4));
}

} // verus!
