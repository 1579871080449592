//! Dialog configuration: the request sequence a configured dialog owes,
//! and the display and terminal options.

use pinentry::unix::{EnvAction, Options};
use pinentry::PassphraseInput;

fn commands_of(input: &PassphraseInput<'_>) -> Vec<(String, Option<String>)> {
    input
        .setup_requests()
        .into_iter()
        .map(|r| (r.command, r.parameters))
        .collect()
}

#[test]
fn fresh_dialog_owes_no_setup_requests() {
    if let Some(input) = PassphraseInput::with_binary("definitely-not-a-real-binary-name") {
        // The binary should not resolve; if it somehow does, the dialog is
        // still fresh.
        assert!(input.setup_requests().is_empty());
    }
}

#[test]
fn configured_dialog_owes_requests_in_order() {
    // `sh` is resolvable on any Unix-like test machine.
    let mut input = match PassphraseInput::with_binary("sh") {
        Some(input) => input,
        None => return,
    };
    input.with_title("Title");
    input.with_description("Enter new passphrase");
    input.with_error("Bad passphrase");
    input.with_prompt("Passphrase:");
    input.with_confirmation("Confirm:", "Mismatch");
    input.with_ok("Go");
    input.with_cancel("Stop");
    input.with_timeout(30);
    let requests = commands_of(&input);
    assert_eq!(
        requests,
        vec![
            ("SETTITLE".to_string(), Some("Title".to_string())),
            ("SETDESC".to_string(), Some("Enter new passphrase".to_string())),
            ("SETERROR".to_string(), Some("Bad passphrase".to_string())),
            ("SETPROMPT".to_string(), Some("Passphrase:".to_string())),
            ("SETOK".to_string(), Some("Go".to_string())),
            ("SETCANCEL".to_string(), Some("Stop".to_string())),
            ("SETREPEAT".to_string(), Some("Confirm:".to_string())),
            ("SETREPEATERROR".to_string(), Some("Mismatch".to_string())),
            ("SETTIMEOUT".to_string(), Some("30".to_string())),
        ]
    );
}

#[test]
fn partially_configured_dialog_skips_unset_options() {
    let mut input = match PassphraseInput::with_binary("sh") {
        Some(input) => input,
        None => return,
    };
    input.with_prompt("PIN:");
    input.with_timeout(5);
    let requests = commands_of(&input);
    assert_eq!(
        requests,
        vec![
            ("SETPROMPT".to_string(), Some("PIN:".to_string())),
            ("SETTIMEOUT".to_string(), Some("5".to_string())),
        ]
    );
}

#[test]
fn options_defaults() {
    let options = Options::builder().build();
    assert_eq!(options.tty_name(), "/dev/tty");
    assert_eq!(options.tty_type(None), "xterm-256color");
    assert_eq!(options.tty_type(Some("vt100")), "vt100");
    assert!(matches!(options.x11_display_action(), EnvAction::Inherit));
    assert!(matches!(options.wayland_display_action(), EnvAction::Inherit));
}

#[test]
fn options_explicit_values() {
    let options = Options::builder()
        .tty_name("/dev/pts/3")
        .tty_type("xterm-16color")
        .x11_display(":1")
        .wayland_display("wayland-1")
        .build();
    assert_eq!(options.tty_name(), "/dev/pts/3");
    assert_eq!(options.tty_type(Some("vt100")), "xterm-16color");
    assert_eq!(options.tty_name_parameter(), "ttyname=/dev/pts/3");
    assert_eq!(options.tty_type_parameter(None), "ttytype=xterm-16color");
    match options.x11_display_action() {
        EnvAction::Assign(v) => assert_eq!(v, ":1"),
        _ => panic!("an explicit display must be assigned"),
    }
    match options.wayland_display_action() {
        EnvAction::Assign(v) => assert_eq!(v, "wayland-1"),
        _ => panic!("an explicit display must be assigned"),
    }
}

#[test]
fn empty_display_override_unsets() {
    let options = Options::builder().x11_display("").wayland_display("").build();
    assert!(matches!(options.x11_display_action(), EnvAction::Unset));
    assert!(matches!(options.wayland_display_action(), EnvAction::Unset));
}

#[test]
fn missing_binary_yields_no_dialog() {
    assert!(PassphraseInput::with_binary("definitely-not-a-real-binary-name").is_none());
}
