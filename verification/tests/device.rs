use watchdog_setup::device::{
    identity_from_read, led_level, led_no_trigger, say, CMD_BUF_LEN, CONSOLE_PORT, IDENT_LEN,
};

#[test]
fn a_full_read_yields_the_identity() {
    let buf: [u8; 16] = *b"0123456789abcdef";
    assert_eq!(identity_from_read(buf, 16), Some(buf));
}

#[test]
fn a_short_read_means_the_identity_is_absent() {
    let buf = [7u8; 16];
    assert_eq!(identity_from_read(buf, 15), None);
    assert_eq!(identity_from_read(buf, 0), None);
}

#[test]
fn an_overlong_read_count_is_not_an_identity_either() {
    assert_eq!(identity_from_read([0u8; 16], 17), None);
}

#[test]
fn led_levels_are_full_and_dark() {
    assert_eq!(led_level(true), b"255\n".to_vec());
    assert_eq!(led_level(false), b"0\n".to_vec());
}

#[test]
fn led_trigger_is_detached_with_none() {
    assert_eq!(led_no_trigger(), b"none\n".to_vec());
}

#[test]
fn buffer_sizes_match_the_wire_protocol() {
    assert_eq!(IDENT_LEN, 16);
    assert_eq!(CMD_BUF_LEN, 256);
    assert_eq!(CONSOLE_PORT, 9123);
}

#[test]
fn announcing_is_a_no_op_in_this_build() {
    say(String::from("Bitahoy watchdog is running"));
}
