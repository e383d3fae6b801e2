//! What the service is started with: where it listens, and what is handed on
//! to the build.

use crate::text::same_text;
use crate::watcher::{watcher_arguments, watcher_command, WatcherCommand};
use vstd::prelude::*;

verus! {

/// Whether the program was started as a subcommand of cargo: cargo then puts
/// the subcommand's name behind the program's own.
pub open spec fn subcommand_named(arguments: Seq<Seq<char>>) -> bool {
    arguments.len() > 1 && arguments[1] == "watchreload"@
}

/// The arguments as the settings are read from them: the subcommand's name,
/// where cargo put it, is left out.
pub open spec fn without_subcommand(arguments: Seq<Seq<char>>) -> Seq<Seq<char>> {
    if subcommand_named(arguments) {
        arguments.remove(1)
    } else {
        arguments
    }
}

/// The address that the listener binds.
pub open spec fn address_of(host: Seq<char>, port: Seq<char>) -> Seq<char> {
    host + ":"@ + port
}

/// Whether the subcommand's name stands in the second place of the
/// arguments. Only the first two arguments are looked at, so a caller may
/// hand over no more than those.
pub fn names_subcommand(arguments: &Vec<String>) -> (named: bool)
    ensures
        named == subcommand_named(arguments.deep_view()),
{
    arguments.len() > 1 && same_text(arguments[1].as_str(), "watchreload")
}

/// Removes the subcommand's name from the second place of the arguments, if
/// it stands there.
pub fn strip_subcommand(arguments: Vec<String>) -> (stripped: Vec<String>)
    ensures
        stripped.deep_view() == without_subcommand(arguments.deep_view()),
{
    let mut stripped: Vec<String> = arguments;
    if names_subcommand(&stripped) {
        stripped.remove(1);
        assert(stripped.deep_view() =~= arguments.deep_view().remove(1));
    }
    stripped
}

/// The settings of the service.
#[derive(Debug)]
pub struct Settings {
    /// The host name or address to listen on.
    pub host: String,
    /// The port to listen on, which is also the port that the built artifact
    /// connects back to.
    pub websocket_port: String,
    /// Arguments handed on to the build.
    pub wasm_pack_args: Vec<String>,
}

impl Default for Settings {
    /// Listen on every interface, port 9001, and hand nothing on to the build.
    fn default() -> (settings: Settings)
        ensures
            settings.host@ == "0.0.0.0"@,
            settings.websocket_port@ == "9001"@,
            settings.wasm_pack_args@.len() == 0,
    {
        Settings {
            host: String::from_str("0.0.0.0"),
            websocket_port: String::from_str("9001"),
            wasm_pack_args: Vec::new(),
        }
    }
}

impl Settings {
    /// The address that the listener binds: host, a colon, port.
    pub fn listen_address(&self) -> (address: String)
        ensures
            address@ == address_of(self.host@, self.websocket_port@),
    {
        let mut address: String = self.host.clone();
        address.append(":");
        address.append(self.websocket_port.as_str());
        address
    }

    /// The command that spawns the build watcher for these settings, set up to
    /// notify the process `pid`.
    pub fn watcher_command(&self, pid: u32) -> (command: WatcherCommand)
        ensures
            command.program@ == "cargo"@,
            command.arguments.deep_view() == watcher_arguments(self.wasm_pack_args.deep_view(), pid),
            command.variable@ == "WATCHRELOAD_PORT"@,
            command.port@ == self.websocket_port@,
    {
        watcher_command(&self.wasm_pack_args, self.websocket_port.as_str(), pid)
    }
}

} // verus!
