use gonk_hal::wifi::{Wifi, WIFI_REPLY_BUFFER_LEN};

fn buffer_with(reply: &[u8]) -> Vec<u8> {
    let mut buffer = vec![0u8; WIFI_REPLY_BUFFER_LEN];
    buffer[..reply.len()].copy_from_slice(reply);
    buffer
}

#[test]
fn driver_loaded_convention_is_positive_status() {
    assert!(Wifi::is_driver_loaded(1));
    assert!(Wifi::is_driver_loaded(7));
    assert!(!Wifi::is_driver_loaded(0));
    assert!(!Wifi::is_driver_loaded(-1));
}

#[test]
fn driver_and_supplicant_steps_succeed_exactly_on_zero() {
    assert_eq!(Wifi::load_driver(0), Ok(()));
    assert_eq!(Wifi::load_driver(-2), Err(-2));
    assert_eq!(Wifi::unload_driver(0), Ok(()));
    assert_eq!(Wifi::unload_driver(-1), Err(-1));
    assert_eq!(Wifi::start_supplicant(0), Ok(()));
    assert_eq!(Wifi::start_supplicant(-5), Err(-5));
    assert_eq!(Wifi::stop_supplicant(0), Ok(()));
    assert_eq!(Wifi::stop_supplicant(3), Err(3));
    assert_eq!(Wifi::connect_to_supplicant(0), Ok(()));
    assert_eq!(Wifi::connect_to_supplicant(-7), Err(-7));
}

#[test]
fn wait_for_event_accepts_lengths_in_bounds_verbatim() {
    let buffer = buffer_with(b"CTRL-EVENT-CONNECTED");
    let event = Wifi::wait_for_event(20, &buffer).expect("in-bounds reply");
    assert_eq!(event, "CTRL-EVENT-CONNECTED");

    // A shorter count takes exactly that prefix.
    let event = Wifi::wait_for_event(4, &buffer).unwrap();
    assert_eq!(event, "CTRL");

    // The full buffer is still in bounds.
    let full = Wifi::wait_for_event(4096, &buffer).unwrap();
    assert_eq!(full.chars().count(), 4096);
}

#[test]
fn wait_for_event_rejects_out_of_bounds_lengths() {
    let buffer = buffer_with(b"ignored");
    assert_eq!(Wifi::wait_for_event(-1, &buffer), Err(()));
    assert_eq!(Wifi::wait_for_event(-1000, &buffer), Err(()));
    assert_eq!(Wifi::wait_for_event(0, &buffer), Err(()));
    assert_eq!(Wifi::wait_for_event(4097, &buffer), Err(()));
    assert_eq!(Wifi::wait_for_event(i32::MAX, &buffer), Err(()));
}

#[test]
fn invalid_bytes_decode_lossily_not_as_errors() {
    // A lone continuation byte is not valid UTF-8: it decodes to the
    // replacement character instead of failing.
    let buffer = buffer_with(&[0x80]);
    let event = Wifi::wait_for_event(1, &buffer).expect("lossy decoding never fails");
    assert_eq!(event, "\u{FFFD}");

    // Valid text around an invalid byte survives the decoding.
    let buffer = buffer_with(&[b'o', b'k', 0xC3, b'!']);
    let event = Wifi::wait_for_event(4, &buffer).unwrap();
    assert_eq!(event, "ok\u{FFFD}!");
}

#[test]
fn command_cstring_appends_the_terminator() {
    let bytes = Wifi::command_cstring("PING").expect("clean command text");
    assert_eq!(bytes, b"PING\0".to_vec());
    let empty = Wifi::command_cstring("").unwrap();
    assert_eq!(empty, b"\0".to_vec());
}

#[test]
fn command_cstring_rejects_an_embedded_terminator() {
    assert!(Wifi::command_cstring("PI\0NG").is_none());
    assert!(Wifi::command_cstring("\0").is_none());
}

#[test]
fn command_reports_the_native_error_itself() {
    let buffer = buffer_with(b"unused");
    assert_eq!(Wifi::command(-4, &buffer, 6), Err(-4));
    assert_eq!(Wifi::command(i32::MIN, &buffer, 6), Err(i32::MIN));
}

#[test]
fn command_rejects_out_of_bounds_reply_lengths() {
    let buffer = buffer_with(b"PONG");
    assert_eq!(Wifi::command(0, &buffer, 0), Err(-10000));
    assert_eq!(Wifi::command(0, &buffer, 4097), Err(-10000));
    assert_eq!(Wifi::command(0, &buffer, usize::MAX), Err(-10000));
}

#[test]
fn command_decodes_an_accepted_reply() {
    let buffer = buffer_with(b"PONG");
    assert_eq!(Wifi::command(0, &buffer, 4).unwrap(), "PONG");
    // Untrusted reply bytes decode permissively here too.
    let buffer = buffer_with(&[0xFF, 0xFE]);
    assert_eq!(Wifi::command(0, &buffer, 2).unwrap(), "\u{FFFD}\u{FFFD}");
}
