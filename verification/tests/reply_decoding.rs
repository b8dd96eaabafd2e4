use wasmer_host::reply::{call_status, decode_text, reply_length, CallOutcome};
use wasmer_host::HostError;

#[test]
fn the_first_result_is_the_reply() {
    assert_eq!(reply_length(&CallOutcome::Returned(vec![Some(5)])), Ok(5));
    assert_eq!(reply_length(&CallOutcome::Returned(vec![Some(-1)])), Ok(-1));
    assert_eq!(reply_length(&CallOutcome::Returned(vec![Some(0), None, Some(9)])), Ok(0));
}

#[test]
fn a_failed_call_is_a_guest_trap() {
    assert_eq!(reply_length(&CallOutcome::Trapped), Err(HostError::GuestTrap));
}

#[test]
fn a_reply_that_is_no_integer_cannot_be_decoded() {
    assert_eq!(reply_length(&CallOutcome::Returned(vec![])), Err(HostError::SerializationError));
    assert_eq!(
        reply_length(&CallOutcome::Returned(vec![None])),
        Err(HostError::SerializationError)
    );
    assert_eq!(
        reply_length(&CallOutcome::Returned(vec![None, Some(3)])),
        Err(HostError::SerializationError)
    );
}

#[test]
fn well_formed_utf8_is_decoded() {
    assert_eq!(decode_text(vec![]), Ok(String::new()));
    assert_eq!(decode_text(vec![b'4', b'2']), Ok(String::from("42")));
    assert_eq!(decode_text(vec![0xC3, 0xA9]), Ok(String::from("é")));
    assert_eq!(decode_text(vec![0xE2, 0x82, 0xAC, b'!']), Ok(String::from("€!")));
    assert_eq!(decode_text(vec![0xF0, 0x9F, 0x98, 0x80]), Ok(String::from("😀")));
    assert_eq!(
        decode_text(b"{\"x\":42}".to_vec()),
        Ok(String::from("{\"x\":42}"))
    );
}

#[test]
fn malformed_utf8_is_a_decoding_error() {
    assert_eq!(decode_text(vec![0xff, 0xfe]), Err(HostError::SerializationError));
    assert_eq!(decode_text(vec![b'a', 0x80]), Err(HostError::SerializationError));
    assert_eq!(decode_text(vec![0xC3]), Err(HostError::SerializationError));
    assert_eq!(decode_text(vec![0xC0, 0x80]), Err(HostError::SerializationError));
    assert_eq!(decode_text(vec![0xED, 0xA0, 0x80]), Err(HostError::SerializationError));
    assert_eq!(decode_text(vec![0xF4, 0x90, 0x80, 0x80]), Err(HostError::SerializationError));
}

#[test]
fn a_call_that_returned_an_integer_succeeded() {
    assert_eq!(call_status(&CallOutcome::Returned(vec![Some(0)])), Ok(()));
    assert_eq!(call_status(&CallOutcome::Returned(vec![Some(-7)])), Ok(()));
    assert_eq!(call_status(&CallOutcome::Trapped), Err(HostError::GuestTrap));
    assert_eq!(call_status(&CallOutcome::Returned(vec![])), Err(HostError::SerializationError));
    assert_eq!(
        call_status(&CallOutcome::Returned(vec![None])),
        Err(HostError::SerializationError)
    );
}
