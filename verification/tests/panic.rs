use ffi_helpers::error_handling::{error_message, take_last_error, update_last_error, LastError};
use ffi_helpers::failure::Failure;
use ffi_helpers::panic::{catch_panic, recover_panic_message, Guarded, Panic, PanicPayload};

#[test]
fn able_to_catch_panics_and_recover_the_panic_message() {
    let mut reg = LastError::new();
    let _ = take_last_error(&mut reg);
    let err_msg = "Miscellaneous panic message";

    // What the guard is handed for an operation that panicked with a
    // formatted message.
    let panicked: Guarded<()> = Err(PanicPayload::Owned(format!("{}", err_msg)));
    let got: Result<(), Failure> = catch_panic(&mut reg, panicked);
    assert!(got.is_err());

    let got_error = take_last_error(&mut reg).unwrap();

    match got_error {
        Failure::Panic(p) => assert_eq!(p.message, err_msg),
        _ => unreachable!(),
    }
}

#[test]
fn a_panic_with_a_message_is_reported_under_that_message() {
    let mut reg = LastError::new();
    let panicked: Guarded<u8> = Err(PanicPayload::Static("boom"));
    let returned = catch_panic(&mut reg, panicked).unwrap_err();
    assert!(returned.is_panic());
    assert_eq!(returned.message(), "boom");
    assert_eq!(error_message(&reg), Some("boom".to_string()));
    let staged = take_last_error(&mut reg).unwrap();
    assert!(staged.is_panic());
    assert_eq!(staged.message(), "boom");
}

#[test]
fn a_panic_without_a_message_is_reported_under_the_stock_message() {
    let mut reg = LastError::new();
    let panicked: Guarded<u8> = Err(PanicPayload::Other);
    let returned = catch_panic(&mut reg, panicked).unwrap_err();
    assert_eq!(returned.message(), "The program panicked");
    assert_eq!(returned, Failure::Panic(Panic::new("The program panicked".to_string())));
    assert_eq!(error_message(&reg), Some("The program panicked".to_string()));
    assert_eq!(take_last_error(&mut reg), Some(returned));
}

#[test]
fn an_ordinary_failure_is_staged_as_it_is() {
    let mut reg = LastError::new();
    update_last_error(&mut reg, Failure::msg("stale"));
    let failed: Guarded<u8> = Ok(Err(Failure::msg("no such file")));
    assert_eq!(catch_panic(&mut reg, failed), Err(Failure::msg("no such file")));
    assert_eq!(error_message(&reg), Some("no such file".to_string()));
    let staged = take_last_error(&mut reg).unwrap();
    assert!(!staged.is_panic());
    assert_eq!(staged, Failure::msg("no such file"));
}

#[test]
fn success_passes_through_and_leaves_the_register_alone() {
    let mut reg = LastError::new();
    let succeeded: Guarded<u8> = Ok(Ok(7));
    assert_eq!(catch_panic(&mut reg, succeeded), Ok(7));
    assert_eq!(take_last_error(&mut reg), None);

    update_last_error(&mut reg, Failure::msg("pending"));
    let succeeded: Guarded<u8> = Ok(Ok(8));
    assert_eq!(catch_panic(&mut reg, succeeded), Ok(8));
    assert_eq!(take_last_error(&mut reg), Some(Failure::msg("pending")));
}

#[test]
fn a_copy_of_a_failure_is_the_same_failure() {
    for failure in [
        Failure::msg("plain"),
        Failure::Panic(Panic::new("boom".to_string())),
        Failure::Cancelled,
        Failure::NullPointer,
        Failure::Disconnected,
    ] {
        let copy = failure.clone();
        assert_eq!(copy, failure);
        assert_eq!(copy.message(), failure.message());
        assert_eq!(copy.is_panic(), failure.is_panic());
    }
}

#[test]
fn only_text_payloads_are_recovered() {
    assert_eq!(
        recover_panic_message(PanicPayload::Owned("owned".to_string())),
        Some("owned".to_string())
    );
    assert_eq!(recover_panic_message(PanicPayload::Static("static")), Some("static".to_string()));
    assert_eq!(recover_panic_message(PanicPayload::Other), None);
}
