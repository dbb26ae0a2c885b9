//! The fixed tokens of the DevSpace command line.

use vstd::prelude::*;

verus! {

/// Name under which the host environment resolves the DevSpace executable.
pub const DEVSPACE_BINARY_NAME: &'static str = "devspace-cli";

/// Subcommand that selects the pro toolkit.
pub const DEVSPACE_COMMAND_PRO: &'static str = "pro";

/// Subcommand that selects the daemon.
pub const DEVSPACE_COMMAND_DAEMON: &'static str = "daemon";

/// Subcommand that starts what the preceding subcommands select.
pub const DEVSPACE_COMMAND_START: &'static str = "start";

/// Name of the flag that carries the host address.
pub const FLAG_HOST: &'static str = "--host";

/// Name of the flag that switches debug output on.
pub const FLAG_DEBUG: &'static str = "--debug";

} // verus!
