use apca::api::positions::List;
use apca::api::positions::ListError;
use apca::api::watchlists::Get;
use apca::api::watchlists::GetError;
use apca::endpoint::build_request;
use apca::endpoint::classify;
use apca::endpoint::evaluate;
use apca::endpoint::parse_api_error;
use apca::endpoint::ConversionError;
use apca::endpoint::Endpoint;
use apca::endpoint::Method;
use apca::endpoint::StatusClass;
use apca::RequestError;

#[test]
fn list_positions_success() {
    let body = br#"[
      {"asset_id": "904837e3-3b76-47ec-b432-046db621571b", "symbol": "AAPL",
       "exchange": "NASDAQ", "asset_class": "us_equity",
       "avg_entry_price": "100.0", "qty": "5", "side": "long",
       "unrealized_pl": null, "lot_count": 3},
      {"asset_id": "c9e40769-9b4e-4663-ac2d-52a510a987ae", "symbol": "MSFT",
       "exchange": "NASDAQ", "asset_class": "us_equity",
       "avg_entry_price": "320.5", "qty": "2", "side": "short"}
    ]"#
    .to_vec();
    let positions = evaluate::<List>(200, &body).unwrap();
    assert_eq!(positions.len(), 2);
    assert_eq!(positions[0].asset_id, "904837e3-3b76-47ec-b432-046db621571b");
    assert_eq!(positions[0].symbol, "AAPL");
    assert_eq!(positions[0].exchange, "NASDAQ");
    assert_eq!(positions[0].asset_class, "us_equity");
    assert_eq!(positions[0].avg_entry_price, "100.0");
    assert_eq!(positions[0].qty, "5");
    assert_eq!(positions[0].side, "long");
    assert_eq!(positions[1].symbol, "MSFT");
    assert_eq!(positions[1].side, "short");
}

#[test]
fn forbidden_carries_message() {
    let body = br#"{"message":"forbidden"}"#.to_vec();
    let result = evaluate::<List>(403, &body);
    match result {
        Err(RequestError::Endpoint(ListError::NotPermitted(Ok(api)))) => {
            assert_eq!(api.message, "forbidden");
        }
        _ => panic!("expected a not-permitted endpoint error"),
    }
}

#[test]
fn rate_limit_keeps_raw_bytes() {
    let body = b"not json at all".to_vec();
    let result = evaluate::<List>(429, &body);
    match result {
        Err(RequestError::Endpoint(ListError::RateLimitExceeded(Err(raw)))) => {
            assert_eq!(raw, b"not json at all".to_vec());
        }
        _ => panic!("expected a rate-limit endpoint error with the raw bytes"),
    }
}

#[test]
fn unexpected_status_keeps_bytes() {
    let body = b"boom".to_vec();
    let result = evaluate::<List>(500, &body);
    match result {
        Err(RequestError::HttpStatus(code, b)) => {
            assert_eq!(code, 500);
            assert_eq!(b.bytes(), &b"boom".to_vec());
            assert_eq!(b.render(), "boom");
        }
        _ => panic!("expected an unexpected-status error"),
    }
}

#[test]
fn unexpected_status_is_per_endpoint() {
    // 204 is a success code for delete-style endpoints elsewhere; for the
    // positions listing it is in neither table and must stay unexpected.
    let body = b"".to_vec();
    let result = evaluate::<List>(204, &body);
    assert!(matches!(result, Err(RequestError::HttpStatus(204, _))));
    let result = evaluate::<Get>(204, &body);
    assert!(matches!(result, Err(RequestError::HttpStatus(204, _))));
}

#[test]
fn universal_codes_for_endpoint_without_own_errors() {
    let body = br#"{"message":"too many"}"#.to_vec();
    let result = evaluate::<Get>(429, &body);
    match result {
        Err(RequestError::Endpoint(GetError::RateLimitExceeded(Ok(api)))) => {
            assert_eq!(api.message, "too many");
        }
        _ => panic!("expected a rate-limit endpoint error"),
    }
    let result = evaluate::<Get>(403, &body);
    assert!(matches!(
        result,
        Err(RequestError::Endpoint(GetError::NotPermitted(Ok(_))))
    ));
}

#[test]
fn malformed_success_body_is_conversion_error() {
    let body = b"not json".to_vec();
    let result = evaluate::<List>(200, &body);
    assert!(matches!(
        result,
        Err(RequestError::Conversion(ConversionError::Json(_)))
    ));
    // A JSON document of the wrong shape is a conversion error as well.
    let body = br#"{"message":"not an array"}"#.to_vec();
    let result = evaluate::<List>(200, &body);
    assert!(matches!(
        result,
        Err(RequestError::Conversion(ConversionError::Json(_)))
    ));
}

#[test]
fn list_watchlists_success() {
    let body = br#"[
      {"id": "w-1", "name": "tech", "account_id": "a-1",
       "created_at": "1970-01-01T00:00:01Z",
       "updated_at": "1970-01-01T00:00:02.500Z"}
    ]"#
    .to_vec();
    let items = evaluate::<Get>(200, &body).unwrap();
    assert_eq!(items.len(), 1);
    assert_eq!(items[0].id, "w-1");
    assert_eq!(items[0].name, "tech");
    assert_eq!(items[0].account_id, "a-1");
    assert_eq!(items[0].created_at, 1_000);
    assert_eq!(items[0].updated_at, 2_500);
}

#[test]
fn watchlist_with_bad_timestamp_is_conversion_error() {
    let body = br#"[
      {"id": "w-1", "name": "tech", "account_id": "a-1",
       "created_at": "not a date", "updated_at": "1970-01-01T00:00:02Z"}
    ]"#
    .to_vec();
    let result = evaluate::<Get>(200, &body);
    assert!(matches!(
        result,
        Err(RequestError::Conversion(ConversionError::Json(_)))
    ));
}

#[test]
fn classification_tables() {
    assert_eq!(classify::<List>(200), StatusClass::Success);
    assert_eq!(classify::<List>(403), StatusClass::NamedError);
    assert_eq!(classify::<List>(429), StatusClass::NamedError);
    assert_eq!(classify::<List>(404), StatusClass::Unexpected);
    assert_eq!(classify::<Get>(200), StatusClass::Success);
    assert_eq!(classify::<Get>(500), StatusClass::Unexpected);
}

#[test]
fn parse_api_error_payloads() {
    let body = br#"{"message": "you shall not pass", "code": 40110000}"#.to_vec();
    let parsed = parse_api_error(&body).unwrap();
    assert_eq!(parsed.message, "you shall not pass");

    let body = br#"{"code": 40110000}"#.to_vec();
    let raw = parse_api_error(&body).unwrap_err();
    assert_eq!(raw, body);

    let body = b"<html>gateway error</html>".to_vec();
    let raw = parse_api_error(&body).unwrap_err();
    assert_eq!(raw, body);
}

#[test]
fn request_construction() {
    assert_eq!(List::path(&()), "/v2/positions");
    assert_eq!(Get::path(&()), "/v2/watchlists");
    assert_eq!(List::method(), Method::Get);
    assert_eq!(List::method().name(), "GET");
    assert_eq!(List::body(&()).unwrap(), Vec::<u8>::new());
    assert_eq!(Get::body(&()).unwrap(), Vec::<u8>::new());
    let parts = build_request::<List>(&()).unwrap();
    assert_eq!(parts.method, Method::Get);
    assert_eq!(parts.path, "/v2/positions");
    assert!(parts.body.is_empty());
}

#[test]
fn independent_dispatches() {
    // Two dispatches against different endpoints classify independently,
    // whatever order they complete in.
    let ok_body = b"[]".to_vec();
    let err_body = br#"{"message":"forbidden"}"#.to_vec();
    let first = evaluate::<List>(200, &ok_body);
    let second = evaluate::<Get>(403, &err_body);
    assert!(first.unwrap().is_empty());
    match second {
        Err(RequestError::Endpoint(GetError::NotPermitted(Ok(api)))) => {
            assert_eq!(api.message, "forbidden");
        }
        _ => panic!("expected a not-permitted endpoint error"),
    }
}
