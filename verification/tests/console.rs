use watchdog_setup::command::{parse_command, Command};
use watchdog_setup::session::{banner, prompt, respond, Session, SshAction};

/// A read buffer as the command loop sees one: fixed size, zero-filled,
/// with the received bytes at the front.
fn read_buffer(input: &[u8]) -> [u8; 256] {
    let mut buf = [0u8; 256];
    buf[..input.len()].copy_from_slice(input);
    buf
}

#[test]
fn parse_recognises_each_command() {
    assert_eq!(parse_command(&read_buffer(b"help\n")), Command::Help);
    assert_eq!(parse_command(&read_buffer(b"exit\n")), Command::Exit);
    assert_eq!(parse_command(&read_buffer(b"ssh on\n")), Command::SshOn);
    assert_eq!(parse_command(&read_buffer(b"ssh off\n")), Command::SshOff);
}

#[test]
fn parse_ignores_trailing_bytes_after_the_newline() {
    assert_eq!(parse_command(b"help\ngarbage after"), Command::Help);
    assert_eq!(parse_command(&read_buffer(b"exit\nmore")), Command::Exit);
    assert_eq!(parse_command(b"ssh on\nssh off\n"), Command::SshOn);
}

#[test]
fn parse_rejects_near_misses() {
    // No terminating newline within the read: no command.
    assert_eq!(parse_command(&read_buffer(b"help")), Command::Unknown);
    // A command split across two reads is never reassembled.
    assert_eq!(parse_command(&read_buffer(b"hel")), Command::Unknown);
    assert_eq!(parse_command(&read_buffer(b"p\n")), Command::Unknown);
    // The match is anchored at the front of the buffer.
    assert_eq!(parse_command(&read_buffer(b" help\n")), Command::Unknown);
    // Case matters.
    assert_eq!(parse_command(&read_buffer(b"HELP\n")), Command::Unknown);
    assert_eq!(parse_command(&read_buffer(b"ssh  on\n")), Command::Unknown);
    assert_eq!(parse_command(&[]), Command::Unknown);
}

#[test]
fn unknown_input_is_echoed_back_unmodified() {
    // The whole buffer comes back after the prefix, embedded zeros included.
    let buf = read_buffer(b"reboot\n");
    let reply = respond(&buf);
    let mut expected = b"Unknown command: ".to_vec();
    expected.extend_from_slice(&buf);
    assert_eq!(reply, expected);
}

#[test]
fn unknown_echo_keeps_arbitrary_garbage_bytes() {
    let garbage: Vec<u8> = vec![0xff, 0x00, 0x7f, b'\n', 0x01];
    let reply = respond(&garbage);
    let mut expected = b"Unknown command: ".to_vec();
    expected.extend_from_slice(&garbage);
    assert_eq!(reply, expected);
}

#[test]
fn help_answers_lol_and_leaves_the_session_open() {
    let mut session = Session::new();
    let (reply, action) = session.step(&read_buffer(b"help\n"));
    assert_eq!(reply, b"lol\n".to_vec());
    assert_eq!(action, SshAction::Keep);
    assert!(session.is_active());
}

#[test]
fn exit_answers_bye_and_closes_the_session() {
    let mut session = Session::new();
    let (reply, action) = session.step(&read_buffer(b"exit\n"));
    assert_eq!(reply, b"bye\n".to_vec());
    assert_eq!(action, SshAction::Keep);
    assert!(!session.is_active());
}

#[test]
fn ssh_on_then_off_toggles_and_keeps_the_session_open() {
    let mut session = Session::new();

    let (reply, action) = session.step(&read_buffer(b"ssh on\n"));
    assert_eq!(reply, b"enabled ssh\n".to_vec());
    assert_eq!(action, SshAction::Enable);
    assert!(session.is_active());

    let (reply, action) = session.step(&read_buffer(b"ssh off\n"));
    assert_eq!(reply, b"disabled ssh\n".to_vec());
    assert_eq!(action, SshAction::Disable);
    assert!(session.is_active());
}

#[test]
fn a_session_survives_any_mix_of_non_exit_commands() {
    let mut session = Session::new();
    let inputs: [&[u8]; 4] = [b"help\n", b"ssh on\n", b"nonsense", b"ssh off\n"];
    for input in inputs {
        let (_reply, _action) = session.step(&read_buffer(input));
        assert!(session.is_active());
    }
    let (reply, _action) = session.step(&read_buffer(b"exit\n"));
    assert_eq!(reply, b"bye\n".to_vec());
    assert!(!session.is_active());
}

#[test]
fn two_sessions_do_not_share_state() {
    let mut first = Session::new();
    let mut second = Session::new();

    let (reply, _action) = first.step(&read_buffer(b"exit\n"));
    assert_eq!(reply, b"bye\n".to_vec());
    assert!(!first.is_active());

    // The other session still answers exactly as a fresh one would.
    assert!(second.is_active());
    let (reply, action) = second.step(&read_buffer(b"help\n"));
    assert_eq!(reply, b"lol\n".to_vec());
    assert_eq!(action, SshAction::Keep);
    assert!(second.is_active());
}

#[test]
fn later_sessions_are_served_after_many_abandoned_ones() {
    // Many sessions that receive garbage and are dropped mid-protocol...
    for n in 0..16u8 {
        let mut session = Session::new();
        let (_reply, _action) = session.step(&read_buffer(&[n, 0xfe, 0xfd]));
        drop(session);
    }
    // ...leave the next one answering exactly as a fresh session would.
    let mut session = Session::new();
    assert!(session.is_active());
    let (reply, _action) = session.step(&read_buffer(b"help\n"));
    assert_eq!(reply, b"lol\n".to_vec());
}

#[test]
fn banner_with_identity_appends_its_16_raw_bytes() {
    let code: [u8; 16] = [0, 1, 2, 3, 4, 5, 250, 251, 252, 253, 254, 255, b'a', b'b', b'c', b'd'];
    let out = banner(&Some(code));
    let mut expected = b"Bitahoy Watchdog debug console\nwdcode: ".to_vec();
    expected.extend_from_slice(&code);
    assert_eq!(out, expected);
    assert_eq!(out.len(), 39 + 16);
}

#[test]
fn banner_without_identity_says_unknown() {
    let out = banner(&None);
    assert_eq!(out, b"Bitahoy Watchdog debug console\nwdcode: <unknown>".to_vec());
}

#[test]
fn prompt_is_newline_then_angle_bracket() {
    assert_eq!(prompt(), b"\n>".to_vec());
}
