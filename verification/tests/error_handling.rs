use ffi_helpers::error_handling::{
    clear_last_error, copy_error_into_buffer, error_message, error_message_utf16,
    error_message_utf8, last_error_length, last_error_length_utf16, null_pointer_check,
    take_last_error, update_last_error, LastError,
};
use ffi_helpers::failure::Failure;
use ffi_helpers::panic::Panic;

#[test]
fn update_the_error() {
    let mut reg = LastError::new();
    clear_last_error(&mut reg);

    let err_msg = "An Error Occurred";
    let e = Failure::msg(err_msg);

    update_last_error(&mut reg, e);

    let got_err_msg = take_last_error(&mut reg).unwrap().message();
    assert_eq!(got_err_msg, err_msg);
}

#[test]
fn take_the_last_error() {
    let mut reg = LastError::new();
    clear_last_error(&mut reg);

    let err_msg = "An Error Occurred";
    let e = Failure::msg(err_msg);
    update_last_error(&mut reg, e);

    let got_err_msg = take_last_error(&mut reg).unwrap().message();
    assert_eq!(got_err_msg, err_msg);
}

#[test]
fn get_the_last_error_messages_length() {
    let mut reg = LastError::new();
    clear_last_error(&mut reg);

    let err_msg = "An Error Occurred";
    let should_be = err_msg.len() + 1;

    let e = Failure::msg(err_msg);
    update_last_error(&mut reg, e);

    // Get a valid error message's length
    let got = last_error_length(&reg);
    assert_eq!(got, should_be as _);

    // Then clear the error message and make sure we get 0
    clear_last_error(&mut reg);
    let got = last_error_length(&reg);
    assert_eq!(got, 0);
}

#[test]
fn write_the_last_error_message_into_a_buffer() {
    let mut reg = LastError::new();
    clear_last_error(&mut reg);

    let err_msg = "An Error Occurred";

    let e = Failure::msg(err_msg);
    update_last_error(&mut reg, e);

    let mut buffer: Vec<u8> = vec![0; 40];
    let bytes_written = error_message_utf8(&reg, &mut buffer);

    assert!(bytes_written > 0);
    assert_eq!(bytes_written as usize, err_msg.len() + 1);

    let msg = std::str::from_utf8(&buffer[..bytes_written as usize - 1]).unwrap();
    assert_eq!(msg, err_msg);
}

#[test]
fn a_fresh_register_holds_nothing() {
    let mut reg = LastError::new();
    assert_eq!(error_message(&reg), None);
    assert_eq!(last_error_length(&reg), 0);
    assert_eq!(last_error_length_utf16(&reg), 0);
    assert_eq!(take_last_error(&mut reg), None);
}

#[test]
fn peeking_shows_the_staged_message_until_it_is_replaced() {
    let mut reg = LastError::new();
    update_last_error(&mut reg, Failure::msg("first"));
    assert_eq!(error_message(&reg), Some("first".to_string()));
    // Peeking, asking for the length and copying leave the failure pending.
    assert_eq!(last_error_length(&reg), 6);
    let mut buffer = [0u8; 8];
    assert_eq!(error_message_utf8(&reg, &mut buffer), 6);
    assert_eq!(error_message(&reg), Some("first".to_string()));

    update_last_error(&mut reg, Failure::msg("second"));
    assert_eq!(error_message(&reg), Some("second".to_string()));
}

#[test]
fn take_is_destructive() {
    let mut reg = LastError::new();
    update_last_error(&mut reg, Failure::msg("gone"));
    assert_eq!(take_last_error(&mut reg), Some(Failure::msg("gone")));
    assert_eq!(error_message(&reg), None);
    assert_eq!(take_last_error(&mut reg), None);

    update_last_error(&mut reg, Failure::Cancelled);
    assert_eq!(error_message(&reg), Some("The task was cancelled".to_string()));
}

#[test]
fn clear_empties_the_register() {
    let mut reg = LastError::new();
    update_last_error(&mut reg, Failure::msg("stale"));
    clear_last_error(&mut reg);
    assert_eq!(error_message(&reg), None);
    assert_eq!(last_error_length(&reg), 0);
}

#[test]
fn every_kind_of_failure_shows_its_text() {
    let mut reg = LastError::new();
    update_last_error(&mut reg, Failure::from(Panic::new("boom".to_string())));
    assert_eq!(error_message(&reg), Some("boom".to_string()));
    update_last_error(&mut reg, Failure::NullPointer);
    assert_eq!(
        error_message(&reg),
        Some("A null pointer was passed in where it wasn't expected".to_string())
    );
    update_last_error(&mut reg, Failure::Disconnected);
    assert_eq!(error_message(&reg), Some("receiving on a closed channel".to_string()));
}

#[test]
fn length_counts_bytes_not_characters() {
    let mut reg = LastError::new();
    // 1 + 2 + 3 + 4 bytes in UTF-8; 1 + 1 + 1 + 2 units in UTF-16.
    let text = "a\u{e9}\u{2713}\u{1d11e}";
    update_last_error(&mut reg, Failure::msg(text));
    assert_eq!(last_error_length(&reg), 11);
    assert_eq!(last_error_length_utf16(&reg), 6);
}

#[test]
fn a_buffer_of_exactly_the_length_round_trips() {
    let mut reg = LastError::new();
    let text = "gr\u{fc}\u{df}e \u{1d11e}";
    update_last_error(&mut reg, Failure::msg(text));

    let needed = last_error_length(&reg);
    let mut buffer = vec![0xAAu8; needed as usize];
    assert_eq!(error_message_utf8(&reg, &mut buffer), needed);
    assert_eq!(buffer[buffer.len() - 1], 0);
    assert_eq!(std::str::from_utf8(&buffer[..buffer.len() - 1]).unwrap(), text);

    let needed = last_error_length_utf16(&reg);
    let mut wide = vec![0xAAAAu16; needed as usize];
    assert_eq!(error_message_utf16(&reg, &mut wide), needed);
    assert_eq!(wide[wide.len() - 1], 0);
    assert_eq!(String::from_utf16(&wide[..wide.len() - 1]).unwrap(), text);
}

#[test]
fn a_buffer_one_unit_short_is_refused_and_left_untouched() {
    let mut reg = LastError::new();
    update_last_error(&mut reg, Failure::msg("An Error Occurred"));

    let needed = last_error_length(&reg) as usize;
    let mut buffer = vec![0xAAu8; needed - 1];
    assert_eq!(error_message_utf8(&reg, &mut buffer), -1);
    assert_eq!(buffer, vec![0xAAu8; needed - 1]);

    let needed = last_error_length_utf16(&reg) as usize;
    let mut wide = vec![0xAAAAu16; needed - 1];
    assert_eq!(error_message_utf16(&reg, &mut wide), -1);
    assert_eq!(wide, vec![0xAAAAu16; needed - 1]);

    let mut empty: [u8; 0] = [];
    assert_eq!(error_message_utf8(&reg, &mut empty), -1);
}

#[test]
fn copying_writes_nothing_past_the_terminator() {
    let mut reg = LastError::new();
    update_last_error(&mut reg, Failure::msg("hi"));

    let mut buffer = [0xAAu8; 6];
    assert_eq!(error_message_utf8(&reg, &mut buffer), 3);
    assert_eq!(buffer, [b'h', b'i', 0, 0xAA, 0xAA, 0xAA]);

    let mut wide = [0xAAAAu16; 5];
    assert_eq!(error_message_utf16(&reg, &mut wide), 3);
    assert_eq!(wide, [0x68, 0x69, 0, 0xAAAA, 0xAAAA]);
}

#[test]
fn copying_from_an_empty_register_reports_zero() {
    let reg = LastError::new();
    let mut buffer = [0xAAu8; 4];
    assert_eq!(error_message_utf8(&reg, &mut buffer), 0);
    assert_eq!(buffer, [0xAAu8; 4]);
    let mut wide = [0xAAAAu16; 4];
    assert_eq!(error_message_utf16(&reg, &mut wide), 0);
    assert_eq!(wide, [0xAAAAu16; 4]);
}

#[test]
fn an_empty_message_still_needs_its_terminator() {
    let mut reg = LastError::new();
    update_last_error(&mut reg, Failure::msg(""));
    assert_eq!(last_error_length(&reg), 1);
    let mut buffer = [0xAAu8; 1];
    assert_eq!(error_message_utf8(&reg, &mut buffer), 1);
    assert_eq!(buffer, [0]);
}

#[test]
fn units_are_copied_with_the_sentinel_of_their_type() {
    let mut buffer = [7i64; 4];
    assert_eq!(copy_error_into_buffer(&mut buffer, Some(vec![1, 2])), 3);
    assert_eq!(buffer, [1, 2, 0, 7]);
    assert_eq!(copy_error_into_buffer(&mut buffer, Some(vec![1, 2, 3, 4])), -1);
    assert_eq!(buffer, [1, 2, 0, 7]);
    assert_eq!(copy_error_into_buffer(&mut buffer, None), 0);
    assert_eq!(buffer, [1, 2, 0, 7]);

    let mut slots = [Some(9u8); 2];
    assert_eq!(copy_error_into_buffer(&mut slots, Some(vec![Some(1)])), 2);
    assert_eq!(slots, [Some(1), None]);
}

#[test]
fn a_null_value_stages_a_null_pointer_failure() {
    let mut reg = LastError::new();
    update_last_error(&mut reg, Failure::msg("earlier"));

    let address: usize = 0x1000;
    assert!(!null_pointer_check(&mut reg, &address));
    assert_eq!(error_message(&reg), Some("earlier".to_string()));

    let null: usize = 0;
    assert!(null_pointer_check(&mut reg, &null));
    assert_eq!(take_last_error(&mut reg), Some(Failure::NullPointer));
}
