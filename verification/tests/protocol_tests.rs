use ccsniffer::protocol::Message;
use ccsniffer::protocol::ProtocolError;

#[test]
fn message_refuses_short_slice() {
    assert!(matches!(Message::from_slice(&[1, 2, 3, 4]), Err(ProtocolError::Other)));
}

#[test]
fn message_reads_as_empty() {
    let message = Message::from_slice(&[1, 2, 3, 4, 5]).unwrap();
    assert_eq!(message.code, 0);
    assert_eq!(message.length, 0);
    assert!(message.body.is_empty());
}
