use adventure::sqs::{to_hex, AwsSqs, Message, ReceiveMessageRequest};

#[test]
fn receive_message_paged_advance() {
    let mut req = AwsSqs::from(ReceiveMessageRequest {
        receive_request_attempt_id: Some(b"first".to_vec()),
    });
    assert!(req.advance(&vec![]));
    let id = req.inner.receive_request_attempt_id.unwrap();
    let id = String::from_utf8(id).unwrap();
    println!("{}", id);
    assert_eq!(id.len(), 64);
    assert!(regex::Regex::new(r"[0-9a-z]{2}+").unwrap().is_match(&id));
}

#[test]
fn advance_without_attempt_id_changes_nothing() {
    let mut req = AwsSqs::from(ReceiveMessageRequest { receive_request_attempt_id: None });
    let page = vec![Message { message_id: Some(b"m-1".to_vec()) }];
    assert!(req.advance(&page));
    assert_eq!(req.inner.receive_request_attempt_id, None);
}

#[test]
fn advance_mixes_in_the_first_message_id() {
    let mut with_message = AwsSqs::from(ReceiveMessageRequest {
        receive_request_attempt_id: Some(b"first".to_vec()),
    });
    let mut without_message = AwsSqs::from(ReceiveMessageRequest {
        receive_request_attempt_id: Some(b"first".to_vec()),
    });
    let page = vec![Message { message_id: Some(b"m-1".to_vec()) }];
    assert!(with_message.advance(&page));
    assert!(without_message.advance(&vec![]));
    let a = with_message.inner.receive_request_attempt_id.unwrap();
    let b = without_message.inner.receive_request_attempt_id.unwrap();
    assert_eq!(a.len(), 64);
    assert_eq!(b.len(), 64);
    assert_ne!(a, b);
}

#[test]
fn to_hex_renders_two_digits_per_byte() {
    assert_eq!(to_hex(&vec![]), b"".to_vec());
    assert_eq!(to_hex(&vec![0x00, 0xab, 0xff, 0x1c]), b"00abff1c".to_vec());
}
