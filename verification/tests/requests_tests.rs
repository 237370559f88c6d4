use scavenger::requests::default_target_deadline;
use scavenger::requests::from_str_or_int;
use scavenger::requests::on_submit_response;
use scavenger::requests::parse_mining_info;
use scavenger::requests::parse_submit_response;
use scavenger::requests::FetchError;
use scavenger::requests::JsonScalar;
use scavenger::requests::PoolError;
use scavenger::requests::RequestHandler;
use scavenger::requests::SubmitAction;
use scavenger::requests::SubmitNonceResonse;

#[test]
fn target_deadline_defaults_to_max() {
    assert_eq!(default_target_deadline(), u64::MAX);
    let body = b"{\"generationSignature\":\"abcd\",\"baseTarget\":123,\"height\":100}";
    let mi = parse_mining_info(body).ok().unwrap();
    assert_eq!(mi.generation_signature, "abcd");
    assert_eq!(mi.base_target, 123);
    assert_eq!(mi.height, 100);
    assert_eq!(mi.target_deadline, u64::MAX);
}

#[test]
fn base_target_string_and_int_agree() {
    let as_int = b"{\"generationSignature\":\"abcd\",\"baseTarget\":12345,\"height\":9}";
    let as_str = b"{\"generationSignature\":\"abcd\",\"baseTarget\":\"12345\",\"height\":\"9\"}";
    let a = parse_mining_info(as_int).ok().unwrap();
    let b = parse_mining_info(as_str).ok().unwrap();
    assert_eq!(a.base_target, 12345);
    assert_eq!(b.base_target, 12345);
    assert_eq!(a.height, b.height);
}

#[test]
fn str_or_int_union() {
    assert_eq!(from_str_or_int(JsonScalar::Uint(12345)), Some(12345));
    assert_eq!(
        from_str_or_int(JsonScalar::Text("12345".to_string())),
        Some(12345)
    );
    assert_eq!(from_str_or_int(JsonScalar::Text("12x".to_string())), None);
    assert_eq!(from_str_or_int(JsonScalar::Other), None);
}

#[test]
fn mining_info_with_target_deadline() {
    let body =
        b"{\"generationSignature\":\"abcd\",\"baseTarget\":1,\"height\":2,\"targetDeadline\":777}";
    let mi = parse_mining_info(body).ok().unwrap();
    assert_eq!(mi.target_deadline, 777);
}

#[test]
fn mining_info_missing_field_is_error() {
    let body = b"{\"baseTarget\":1,\"height\":2}";
    assert!(parse_mining_info(body).is_err());
}

#[test]
fn submit_response_deadline() {
    let ok = parse_submit_response(b"{\"deadline\":55}").ok().unwrap();
    assert_eq!(ok.deadline, 55);
}

#[test]
fn pool_error_wrapper_parsed() {
    let body = b"{\"error\":{\"code\":4,\"message\":\"nope\"}}";
    let err = parse_submit_response(body).err().unwrap();
    assert_eq!(err.code, 4);
    assert_eq!(err.message, "nope");
}

#[test]
fn unrecognized_body_falls_back_to_lossy_text() {
    let err = parse_submit_response(b"not json").err().unwrap();
    assert_eq!(err.code, 0);
    assert_eq!(err.message, "not json");
    // Invalid UTF-8 decodes lossily, not verbatim.
    let err = parse_submit_response(&[0xff]).err().unwrap();
    assert_eq!(err.code, 0);
    assert_eq!(err.message, "\u{FFFD}");
}

#[test]
fn pool_error_flat_shape_parsed() {
    // The flat protocol shape carries its code and description through.
    let body = b"{\"errorCode\":1004,\"errorDescription\":\"bad\"}";
    let err = parse_submit_response(body).err().unwrap();
    assert_eq!(err.code, 1004);
    assert_eq!(err.message, "bad");
}

#[test]
fn submission_retry_then_success() {
    // Two transport failures retry; the third attempt succeeds with a
    // matching deadline and nothing more is sent.
    let a = on_submit_response(0, 99, Err(FetchError::Http("reset".to_string())));
    assert!(matches!(a, SubmitAction::Retry));
    let a = on_submit_response(1, 99, Err(FetchError::Timeout("timeout".to_string())));
    assert!(matches!(a, SubmitAction::Retry));
    let a = on_submit_response(2, 99, Ok(SubmitNonceResonse { deadline: 99 }));
    assert!(matches!(a, SubmitAction::Done));
}

#[test]
fn submission_retries_exhausted() {
    let a = on_submit_response(3, 99, Err(FetchError::Http("reset".to_string())));
    assert!(matches!(a, SubmitAction::RetriesExhausted));
}

#[test]
fn pool_error_not_retried() {
    let a = on_submit_response(
        0,
        99,
        Err(FetchError::Pool(PoolError {
            code: 1004,
            message: "bad".to_string(),
        })),
    );
    match a {
        SubmitAction::PoolRejection(e) => {
            assert_eq!(e.code, 1004);
            assert_eq!(e.message, "bad");
        }
        _ => panic!("pool rejection expected"),
    }
}

#[test]
fn deadline_mismatch_warned_not_retried() {
    let a = on_submit_response(0, 99, Ok(SubmitNonceResonse { deadline: 100 }));
    match a {
        SubmitAction::DeadlineMismatch {
            submitted,
            returned,
        } => {
            assert_eq!(submitted, 99);
            assert_eq!(returned, 100);
        }
        _ => panic!("mismatch expected"),
    }
}

#[test]
fn submit_path_pool_mode_carries_deadline() {
    let rh = RequestHandler::new("http://pool:8080".to_string(), "", 5000);
    let path = rh.submit_nonce_path(123, 4, 100, 77);
    assert_eq!(
        path,
        "/burst?requestType=submitNonce&accountId=123&nonce=4&secretPhrase=&blockheight=100&deadline=77"
    );
    assert_eq!(
        rh.uri_for(&path),
        format!("http://pool:8080{}", path)
    );
}

#[test]
fn submit_path_solo_mode_encodes_secret() {
    let rh = RequestHandler::new("http://node".to_string(), "my secret", 5000);
    assert_eq!(rh.secret_phrase_encoded, "my+secret");
    let path = rh.submit_nonce_path(1, 2, 3, 4);
    assert_eq!(
        path,
        "/burst?requestType=submitNonce&accountId=1&nonce=2&secretPhrase=my+secret&blockheight=3"
    );
    assert_eq!(
        rh.get_mining_info_path(),
        "/burst?requestType=getMiningInfo"
    );
}
