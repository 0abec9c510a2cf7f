use apca::websocket::MessageResult;

#[test]
fn message_result_from_ok() {
    let result: Result<u32, String> = Ok(42);
    let adapted = MessageResult::from(result);
    assert!(matches!(adapted, MessageResult::Success(42)));
}

#[test]
fn message_result_from_err() {
    let result: Result<u32, String> = Err("connection lost".to_string());
    let adapted: MessageResult<u32, String> = result.into();
    match adapted {
        MessageResult::Failure(message) => assert_eq!(message, "connection lost"),
        MessageResult::Success(_) => panic!("expected the error value to carry over"),
    }
}
