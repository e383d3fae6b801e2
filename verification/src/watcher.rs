//! The command line of the build watcher: the external tool that rebuilds the
//! artifact whenever a source file changes and then tells this process so.

use crate::text::{decimal, decimal_digits, join, joined};
use vstd::prelude::*;

verus! {

/// The shell command that builds the artifact, with the forwarded arguments
/// after it, separated by single spaces and not escaped.
pub open spec fn build_step(forwarded: Seq<Seq<char>>) -> Seq<char> {
    "wasm-pack build --target web "@ + joined(forwarded, " "@)
}

/// The shell command that delivers the completion notification to the
/// process `pid`.
pub open spec fn notify_step(pid: u32) -> Seq<char> {
    "kill -USR1 "@ + decimal_digits(pid as nat)
}

/// The arguments of the watcher: build, and after every build that went
/// through, notify.
pub open spec fn watcher_arguments(forwarded: Seq<Seq<char>>, pid: u32) -> Seq<Seq<char>> {
    seq!["watch"@, "--shell"@, build_step(forwarded), "--shell"@, notify_step(pid)]
}

/// How to spawn the build watcher.
#[derive(Debug)]
pub struct WatcherCommand {
    /// The program to run.
    pub program: String,
    /// Its arguments, in order.
    pub arguments: Vec<String>,
    /// The name of the environment variable that carries the port.
    pub variable: String,
    /// The port that the built artifact connects back to.
    pub port: String,
}

/// The command that watches the sources, rebuilds with `forwarded` handed on
/// to the build, and after each build notifies the process `pid`. The
/// artifact learns from the environment which port to connect back to.
pub fn watcher_command(forwarded: &Vec<String>, port: &str, pid: u32) -> (command: WatcherCommand)
    ensures
        command.program@ == "cargo"@,
        command.arguments.deep_view() == watcher_arguments(forwarded.deep_view(), pid),
        command.variable@ == "WATCHRELOAD_PORT"@,
        command.port@ == port@,
{
    let mut build: String = String::from_str("wasm-pack build --target web ");
    let forwarded_text: String = join(forwarded, " ");
    build.append(forwarded_text.as_str());
    let mut notify: String = String::from_str("kill -USR1 ");
    let pid_text: String = decimal(pid);
    notify.append(pid_text.as_str());
    let mut arguments: Vec<String> = Vec::new();
    arguments.push(String::from_str("watch"));
    arguments.push(String::from_str("--shell"));
    arguments.push(build);
    arguments.push(String::from_str("--shell"));
    arguments.push(notify);
    assert(arguments.deep_view() =~= watcher_arguments(forwarded.deep_view(), pid));
    WatcherCommand {
        program: String::from_str("cargo"),
        arguments,
        variable: String::from_str("WATCHRELOAD_PORT"),
        port: String::from_str(port),
    }
}

} // verus!
