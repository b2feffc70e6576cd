use usb_topology::{
    control_answer, control_reply, get_device_property, grow, payload_text, registry_reply,
    registry_byte_reply, PropertyKind, PropertyStep, QueryAction, QueryError, QueryStage, Reply,
    SizedQuery, ERROR_INSUFFICIENT_BUFFER, ERROR_INVALID_DATA,
};

fn wide(s: &str) -> Vec<u16> {
    s.encode_utf16().collect()
}

/// Answers like the registry: the stored text plus a terminator, or "too small".
fn answer(stored: &[u16], buf: &mut Vec<u16>) -> Reply {
    let units = stored.len() + 1;
    if buf.len() >= units {
        buf[..stored.len()].copy_from_slice(stored);
        buf[stored.len()] = 0;
        Reply::Filled { units }
    } else {
        Reply::TooSmall { required: units }
    }
}

/// Runs a whole registry query against `stored`, counting the calls made.
fn run(stored: &[u16], buf: &mut Vec<u16>) -> (Result<Vec<u16>, QueryError>, usize) {
    let mut q = SizedQuery::registry();
    let mut calls = 0;
    loop {
        calls += 1;
        let reply = answer(stored, buf);
        match q.on_reply(reply, buf) {
            QueryAction::CallAgain => continue,
            QueryAction::Finished(r) => return (r, calls),
        }
    }
}

#[test]
fn buffer_after_a_successful_fetch_is_the_text() {
    let stored = wide("USB Root Hub");
    let mut buf = vec![0u16; 64];
    let (r, _) = run(&stored, &mut buf);
    assert_eq!(buf.len(), stored.len());
    assert_eq!(r, Ok(buf.clone()));
    let mut again = buf.clone();
    again.push(0);
    assert_eq!(again.len(), stored.len() + 1);
}

#[test]
fn control_fetch_keeps_the_header_and_cuts_the_terminator() {
    let mut q = SizedQuery::with_header(2);
    let mut buf = vec![10u16, 0, 0x41, 0x42, 0, 7, 7];
    match q.on_reply(Reply::Filled { units: 5 }, &mut buf) {
        QueryAction::Finished(r) => assert_eq!(r, Ok(vec![0x41u16, 0x42])),
        QueryAction::CallAgain => panic!("retried a filled answer"),
    }
    assert_eq!(buf, vec![10u16, 0, 0x41, 0x42]);
}

#[test]
fn failed_fetch_leaves_the_buffer() {
    let mut q = SizedQuery::registry();
    let mut buf = vec![0x41u16, 0x42, 0x43];
    match q.on_reply(Reply::Filled { units: 3 }, &mut buf) {
        QueryAction::Finished(r) => assert_eq!(r, Err(QueryError::Malformed)),
        QueryAction::CallAgain => panic!("retried a filled answer"),
    }
    assert_eq!(buf, vec![0x41u16, 0x42, 0x43]);
}

#[test]
fn short_probe_is_retried_with_the_required_capacity() {
    let mut q = SizedQuery::registry();
    let mut buf = vec![0u16; 3];
    let a = q.on_reply(Reply::TooSmall { required: 17 }, &mut buf);
    assert!(matches!(a, QueryAction::CallAgain));
    assert!(buf.len() >= 17);
    assert_eq!(q.stage, QueryStage::Fetching);
}

#[test]
fn successful_probe_makes_no_second_call() {
    let stored = wide("USB Root Hub");
    let mut buf = vec![0u16; 64];
    let (r, calls) = run(&stored, &mut buf);
    assert_eq!(calls, 1);
    assert_eq!(r, Ok(stored));
}

#[test]
fn short_probe_makes_exactly_two_calls() {
    let stored = wide("{36fc9e60-c465-11cf-8056-444553540000}\\0001");
    let mut buf = Vec::new();
    let (r, calls) = run(&stored, &mut buf);
    assert_eq!(calls, 2);
    assert_eq!(buf, stored);
    assert_eq!(r, Ok(stored));
}

#[test]
fn query_twice_with_fresh_buffers_gives_the_same_text() {
    let stored = wide("Intel(R) USB 3.0 eXtensible Host Controller");
    let (first, _) = run(&stored, &mut vec![0u16; 4]);
    let (second, _) = run(&stored, &mut vec![0u16; 300]);
    assert_eq!(first, second);
    assert_eq!(first, Ok(stored));
}

#[test]
fn stripped_text_plus_terminator_is_the_reported_count() {
    let buf = vec![0x55u16, 0x53, 0x42, 0, 9, 9];
    let text = payload_text(&buf, 0, 4).unwrap();
    assert_eq!(text, vec![0x55u16, 0x53, 0x42]);
    assert_eq!(text.len() + 1, 4);
    let mut again = text.clone();
    again.push(0);
    assert_eq!(again, buf[..4].to_vec());
}

#[test]
fn header_is_skipped_before_the_text() {
    let buf = vec![10u16, 0, 0x41, 0x42, 0];
    assert_eq!(payload_text(&buf, 2, 5), Ok(vec![0x41u16, 0x42]));
}

#[test]
fn zero_units_is_malformed() {
    let buf = vec![0u16; 8];
    assert_eq!(payload_text(&buf, 0, 0), Err(QueryError::Malformed));
    assert_eq!(payload_text(&buf, 2, 2), Err(QueryError::Malformed));
}

#[test]
fn missing_terminator_is_malformed() {
    let buf = vec![0x41u16, 0x42, 0x43];
    assert_eq!(payload_text(&buf, 0, 3), Err(QueryError::Malformed));
}

#[test]
fn embedded_terminator_is_malformed() {
    let buf = vec![0x41u16, 0, 0x43, 0];
    assert_eq!(payload_text(&buf, 0, 4), Err(QueryError::Malformed));
}

#[test]
fn answer_longer_than_buffer_is_a_size_mismatch() {
    let buf = vec![0x41u16, 0];
    assert_eq!(payload_text(&buf, 0, 5), Err(QueryError::SizeMismatch));
}

#[test]
fn second_short_reply_is_a_size_mismatch() {
    let mut q = SizedQuery::registry();
    let mut buf = Vec::new();
    assert!(matches!(q.on_reply(Reply::TooSmall { required: 8 }, &mut buf), QueryAction::CallAgain));
    match q.on_reply(Reply::TooSmall { required: 12 }, &mut buf) {
        QueryAction::Finished(r) => assert_eq!(r, Err(QueryError::SizeMismatch)),
        QueryAction::CallAgain => panic!("a third call"),
    }
    assert!(q.is_finished());
    assert_eq!(buf.len(), 8);
}

#[test]
fn other_failure_is_passed_on() {
    let mut q = SizedQuery::registry();
    let mut buf = vec![0u16; 4];
    match q.on_reply(Reply::Failed { code: 5 }, &mut buf) {
        QueryAction::Finished(r) => assert_eq!(r, Err(QueryError::Underlying(5))),
        QueryAction::CallAgain => panic!("retried a failure"),
    }
}

#[test]
fn grow_extends_with_zeros_and_keeps_longer_buffers() {
    let mut buf = vec![7u16, 8];
    grow(&mut buf, 5);
    assert_eq!(buf, vec![7u16, 8, 0, 0, 0]);
    grow(&mut buf, 3);
    assert_eq!(buf, vec![7u16, 8, 0, 0, 0]);
}

#[test]
fn registry_replies_are_classified() {
    assert_eq!(registry_reply(true, 0, 9), Reply::Filled { units: 9 });
    assert_eq!(registry_reply(false, ERROR_INSUFFICIENT_BUFFER, 9), Reply::TooSmall { required: 9 });
    assert_eq!(registry_reply(false, 13, 9), Reply::Failed { code: 13 });
}

#[test]
fn control_replies_are_classified() {
    assert_eq!(control_reply(false, 31, 4, 40), Reply::Failed { code: 31 });
    assert_eq!(control_reply(true, 0, 4, 40), Reply::TooSmall { required: 40 });
    assert_eq!(control_reply(true, 0, 40, 40), Reply::Filled { units: 40 });
}

#[test]
fn control_answer_reads_the_byte_count_header() {
    // 94 bytes: a 4-byte header and 45 units of text and terminator.
    let probe = vec![94u16, 0, 0, 0];
    assert_eq!(control_answer(true, 0, &probe), Reply::TooSmall { required: 47 });
    let big = vec![0u16, 1, 0, 0];
    assert_eq!(control_answer(true, 0, &big), Reply::TooSmall { required: 32768 });
    assert_eq!(control_answer(true, 0, &vec![7u16]), Reply::Filled { units: 0 });
    assert_eq!(control_answer(false, 6, &probe), Reply::Failed { code: 6 });
    assert_eq!(
        control_answer(false, ERROR_INSUFFICIENT_BUFFER, &probe),
        Reply::TooSmall { required: 47 }
    );
    assert_eq!(
        control_answer(false, ERROR_INSUFFICIENT_BUFFER, &vec![7u16]),
        Reply::Failed { code: ERROR_INSUFFICIENT_BUFFER }
    );
}

#[test]
fn registry_byte_counts_are_halved() {
    assert_eq!(registry_byte_reply(true, 0, 94), Reply::Filled { units: 47 });
    assert_eq!(registry_byte_reply(false, ERROR_INSUFFICIENT_BUFFER, 94), Reply::TooSmall { required: 47 });
    assert_eq!(registry_byte_reply(false, 13, 94), Reply::Failed { code: 13 });
    assert_eq!(registry_byte_reply(true, 0, 0), Reply::Filled { units: 0 });
}

#[test]
fn odd_registry_byte_count_is_malformed() {
    assert_eq!(registry_byte_reply(true, 0, 95), Reply::Filled { units: 0 });
    assert_eq!(
        registry_byte_reply(false, ERROR_INSUFFICIENT_BUFFER, 95),
        Reply::Failed { code: ERROR_INSUFFICIENT_BUFFER }
    );
    let mut q = SizedQuery::registry();
    let mut buf = vec![0x41u16, 0, 0];
    match q.on_reply(registry_byte_reply(true, 0, 3), &mut buf) {
        QueryAction::Finished(r) => assert_eq!(r, Err(QueryError::Malformed)),
        QueryAction::CallAgain => panic!("retried a filled answer"),
    }
}

#[test]
fn control_answer_without_room_for_a_terminator_is_malformed() {
    // 5 bytes: the header and half a unit.
    let odd = vec![5u16, 0, 0];
    assert_eq!(control_answer(true, 0, &odd), Reply::Filled { units: 0 });
    assert_eq!(
        control_answer(false, ERROR_INSUFFICIENT_BUFFER, &odd),
        Reply::Failed { code: ERROR_INSUFFICIENT_BUFFER }
    );
    // 4 bytes: the header alone.
    assert_eq!(control_answer(true, 0, &vec![4u16, 0, 0]), Reply::Filled { units: 0 });
    // 6 bytes: the header and an empty text.
    assert_eq!(control_answer(true, 0, &vec![6u16, 0, 0]), Reply::Filled { units: 3 });
    let mut q = SizedQuery::with_header(2);
    let mut buf = odd.clone();
    match q.on_reply(control_answer(true, 0, &odd), &mut buf) {
        QueryAction::Finished(r) => assert_eq!(r, Err(QueryError::Malformed)),
        QueryAction::CallAgain => panic!("retried a filled answer"),
    }
}

#[test]
fn property_selectors() {
    assert_eq!(PropertyKind::Description.selector(), 0);
    assert_eq!(PropertyKind::HardwareId.selector(), 1);
    assert_eq!(PropertyKind::Service.selector(), 4);
    assert_eq!(PropertyKind::Class.selector(), 7);
    assert_eq!(PropertyKind::DriverKey.selector(), 9);
}

/// Fetches a property of a device that may lack it, as the registry answers.
fn fetch(stored: Option<&[u16]>) -> Result<Option<Vec<u16>>, QueryError> {
    let mut q = SizedQuery::registry();
    let mut buf = vec![0u16; 2];
    loop {
        let reply = match stored {
            Some(s) => answer(s, &mut buf),
            None => Reply::Failed { code: ERROR_INVALID_DATA },
        };
        match get_device_property(&mut q, reply, &mut buf) {
            PropertyStep::CallAgain => continue,
            PropertyStep::Finished(r) => return r,
        }
    }
}

#[test]
fn lacking_description_is_none_while_driver_key_is_present() {
    let key = wide("{36fc9e60-c465-11cf-8056-444553540000}\\0005");
    assert_eq!(fetch(None), Ok(None));
    assert_eq!(fetch(Some(&key)), Ok(Some(key.clone())));
}

#[test]
fn found_property_is_left_in_the_buffer() {
    let stored = wide("USBXHCI");
    let mut q = SizedQuery::registry();
    let mut buf = vec![0u16; 16];
    let reply = answer(&stored, &mut buf);
    match get_device_property(&mut q, reply, &mut buf) {
        PropertyStep::Finished(r) => assert_eq!(r, Ok(Some(stored.clone()))),
        PropertyStep::CallAgain => panic!("retried a filled answer"),
    }
    assert_eq!(buf, stored);
}

#[test]
fn property_failure_other_than_absence_is_an_error() {
    let mut q = SizedQuery::registry();
    let mut buf = vec![0u16; 2];
    match get_device_property(&mut q, Reply::Failed { code: 87 }, &mut buf) {
        PropertyStep::Finished(r) => assert_eq!(r, Err(QueryError::Underlying(87))),
        PropertyStep::CallAgain => panic!("retried a failure"),
    }
}
