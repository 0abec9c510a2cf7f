use apca::endpoint::ConversionError;
use apca::Error;
use apca::HttpBody;
use apca::RequestError;

#[test]
fn formatting() {
    let body = HttpBody::new(vec![0, 159, 146, 150]);
    let err = Error::HttpStatus(404, body);
    assert_eq!(
        err.render(),
        "encountered an unexpected HTTP status: 404 Not Found: [0, 159, 146, 150]"
    );

    let body = HttpBody::new("invalid".to_string().as_bytes().to_vec());
    let err = Error::HttpStatus(404, body);
    assert_eq!(
        err.render(),
        "encountered an unexpected HTTP status: 404 Not Found: invalid"
    );
}

#[test]
fn body_rendering() {
    assert_eq!(HttpBody::new(Vec::new()).render(), "");
    assert_eq!(HttpBody::new(b"plain text".to_vec()).render(), "plain text");
    assert_eq!(HttpBody::new(vec![255]).render(), "[255]");
    assert_eq!(HttpBody::new(vec![0, 159, 146, 150]).render(), "[0, 159, 146, 150]");
    let bytes = HttpBody::new(vec![1, 2, 3]);
    assert_eq!(bytes.bytes(), &vec![1, 2, 3]);
}

#[test]
fn status_code_out_of_range() {
    let err = Error::HttpStatus(1000, HttpBody::new(b"x".to_vec()));
    assert_eq!(err.render(), "encountered an unexpected HTTP status: 1000: x");
    let err = Error::HttpStatus(99, HttpBody::new(b"y".to_vec()));
    assert_eq!(err.render(), "encountered an unexpected HTTP status: 99: y");
}

#[test]
fn error_messages() {
    assert_eq!(
        Error::Http("broken".to_string()).render(),
        "encountered an HTTP related error"
    );
    assert_eq!(Error::Json("broken".to_string()).render(), "a JSON conversion failed");
    assert_eq!(Error::Str("custom problem".to_string()).render(), "custom problem");
    assert_eq!(Error::Url("broken".to_string()).render(), "failed to parse the URL");
    assert_eq!(
        Error::WebSocket("broken".to_string()).render(),
        "encountered a websocket related error"
    );
}

#[test]
fn request_error_messages() {
    let err: RequestError<u8> = RequestError::Endpoint(7);
    assert_eq!(err.render(), "the endpoint reported an error");
    let err: RequestError<u8> = RequestError::Conversion(ConversionError::Json("bad".to_string()));
    assert_eq!(err.render(), "failed to convert from/to JSON");
    let err: RequestError<u8> =
        RequestError::Conversion(ConversionError::UrlEncode("bad".to_string()));
    assert_eq!(err.render(), "failed to URL-encode data");
    let err: RequestError<u8> = RequestError::HttpStatus(502, HttpBody::new(b"gw".to_vec()));
    assert_eq!(err.render(), "encountered an unexpected HTTP status: 502 Bad Gateway: gw");
    let err: RequestError<u8> = RequestError::Hyper("lost".to_string());
    assert_eq!(err.render(), "the hyper crate reported an error");
    let err: RequestError<u8> = RequestError::HyperUtil("lost".to_string());
    assert_eq!(err.render(), "the hyper-util crate reported an error");
    let err: RequestError<u8> = RequestError::Io("lost".to_string());
    assert_eq!(err.render(), "failed to read data");
}
