use watchreload::config::{names_subcommand, strip_subcommand, Settings};
use watchreload::watcher::watcher_command;

fn strings(parts: &[&str]) -> Vec<String> {
    parts.iter().map(|part| part.to_string()).collect()
}

#[test]
fn subcommand_name_is_stripped_from_second_place() {
    let stripped = strip_subcommand(strings(&["cargo-watchreload", "watchreload", "--host", "::1"]));
    assert_eq!(stripped, strings(&["cargo-watchreload", "--host", "::1"]));
}

#[test]
fn arguments_without_subcommand_name_are_kept() {
    let arguments = strings(&["cargo-watchreload", "--host", "::1"]);
    assert_eq!(strip_subcommand(arguments.clone()), arguments);
}

#[test]
fn subcommand_name_elsewhere_is_kept() {
    let arguments = strings(&["watchreload", "--host", "watchreload"]);
    assert_eq!(strip_subcommand(arguments.clone()), arguments);
}

#[test]
fn only_one_subcommand_name_is_stripped() {
    let stripped = strip_subcommand(strings(&["bin", "watchreload", "watchreload"]));
    assert_eq!(stripped, strings(&["bin", "watchreload"]));
}

#[test]
fn short_argument_lists_are_kept() {
    assert_eq!(strip_subcommand(strings(&[])), strings(&[]));
    assert_eq!(strip_subcommand(strings(&["watchreload"])), strings(&["watchreload"]));
}

#[test]
fn default_settings() {
    let settings = Settings::default();
    assert_eq!(settings.host, "0.0.0.0");
    assert_eq!(settings.websocket_port, "9001");
    assert!(settings.wasm_pack_args.is_empty());
}

#[test]
fn listen_address_is_host_colon_port() {
    let settings = Settings::default();
    assert_eq!(settings.listen_address(), "0.0.0.0:9001");
    let local = Settings {
        host: "localhost".to_string(),
        websocket_port: "8080".to_string(),
        wasm_pack_args: Vec::new(),
    };
    assert_eq!(local.listen_address(), "localhost:8080");
}

#[test]
fn watcher_command_without_forwarded_arguments() {
    let command = watcher_command(&strings(&[]), "9001", 4242);
    assert_eq!(command.program, "cargo");
    assert_eq!(
        command.arguments,
        strings(&[
            "watch",
            "--shell",
            "wasm-pack build --target web ",
            "--shell",
            "kill -USR1 4242",
        ])
    );
    assert_eq!(command.variable, "WATCHRELOAD_PORT");
    assert_eq!(command.port, "9001");
}

#[test]
fn watcher_command_forwards_arguments() {
    let command = watcher_command(&strings(&["--dev", "--out-dir", "pkg"]), "1234", 1);
    assert_eq!(command.arguments.len(), 5);
    assert_eq!(command.arguments[2], "wasm-pack build --target web --dev --out-dir pkg");
    assert_eq!(command.arguments[4], "kill -USR1 1");
    assert_eq!(command.port, "1234");
}

#[test]
fn watcher_command_from_settings_uses_the_listening_port() {
    let settings = Settings {
        host: "127.0.0.1".to_string(),
        websocket_port: "7000".to_string(),
        wasm_pack_args: strings(&["--release"]),
    };
    let command = settings.watcher_command(4294967295);
    assert_eq!(command.program, "cargo");
    assert_eq!(
        command.arguments,
        strings(&[
            "watch",
            "--shell",
            "wasm-pack build --target web --release",
            "--shell",
            "kill -USR1 4294967295",
        ])
    );
    assert_eq!(command.variable, "WATCHRELOAD_PORT");
    assert_eq!(command.port, "7000");
}

#[test]
fn subcommand_name_is_looked_for_in_second_place_only() {
    assert!(names_subcommand(&strings(&["cargo-watchreload", "watchreload"])));
    assert!(names_subcommand(&strings(&["cargo-watchreload", "watchreload", "--host"])));
    assert!(!names_subcommand(&strings(&["watchreload"])));
    assert!(!names_subcommand(&strings(&["watchreload", "--host", "watchreload"])));
    assert!(!names_subcommand(&strings(&["bin", "Watchreload"])));
    assert!(!names_subcommand(&strings(&[])));
}
