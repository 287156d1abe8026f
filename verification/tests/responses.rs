use oura_api::{check_status, conclude, is_success, ApiError, DateQuery, ListResponse};

#[test]
fn success_is_two_hundred_to_two_hundred_ninety_nine() {
    assert!(!is_success(0));
    assert!(!is_success(100));
    assert!(!is_success(199));
    assert!(is_success(200));
    assert!(is_success(204));
    assert!(is_success(299));
    assert!(!is_success(300));
    assert!(!is_success(304));
    assert!(!is_success(400));
    assert!(!is_success(500));
    assert!(!is_success(u16::MAX));
}

#[test]
fn a_status_outside_success_fails_with_that_status() {
    assert_eq!(check_status(200), Ok(()));
    assert_eq!(check_status(299), Ok(()));
    for status in [100u16, 199, 300, 301, 400, 401, 404, 429, 500, 503] {
        assert_eq!(check_status(status), Err(ApiError::Status(status)));
        assert_eq!(conclude(status, Ok::<u8, String>(7)), Err(ApiError::Status(status)));
        assert_eq!(
            conclude(status, Err::<u8, String>("expected value".to_string())),
            Err(ApiError::Status(status))
        );
    }
}

#[test]
fn a_successful_reply_hands_on_the_decoded_value() {
    let body = r#"{"data":[{"id":"a","score":82},{"id":"b","score":null}],"next_token":"abc"}"#;
    let plain: serde_json::Value = serde_json::from_str(body).unwrap();
    let through = conclude(200, serde_json::from_str::<serde_json::Value>(body).map_err(|e| e.to_string()));
    assert_eq!(through, Ok(plain));
}

#[test]
fn a_body_that_does_not_decode_fails_with_the_reason() {
    let reason = serde_json::from_str::<serde_json::Value>("{\"data\": [").unwrap_err().to_string();
    let result = conclude(200, Err::<u8, String>(reason.clone()));
    assert_eq!(result, Err(ApiError::Decode(reason)));
    assert_eq!(conclude(200, Err::<u8, String>(String::new())).unwrap_err().status(), None);
}

#[test]
fn only_a_status_failure_has_a_status() {
    assert_eq!(ApiError::Status(400).status(), Some(400));
    assert_eq!(ApiError::Status(503).status(), Some(503));
    assert_eq!(ApiError::Transport("connection refused".to_string()).status(), None);
    assert_eq!(ApiError::Decode("missing field `data`".to_string()).status(), None);
}

#[test]
fn the_cursor_of_a_page_is_kept_as_it_came() {
    let last: ListResponse<u8> = ListResponse { data: vec![], next_token: None };
    assert!(last.is_last_page());
    assert_eq!(last.cursor(), None);

    let token = "Zm9v YmFy/+==";
    let page = ListResponse { data: vec![1u8, 2], next_token: Some(token.to_string()) };
    assert!(!page.is_last_page());
    assert_eq!(page.cursor(), Some(token));
    assert_eq!(page.data, vec![1, 2]);

    let next = DateQuery::builder().start_date("2023-01-01").next_token(page.cursor().unwrap()).build();
    assert_eq!(next.pairs(), vec![("start_date", "2023-01-01"), ("next_token", token)]);
    assert_eq!(next.query_string(), "start_date=2023-01-01&next_token=Zm9v+YmFy%2F%2B%3D%3D");

    let empty = ListResponse { data: vec![0u8], next_token: Some(String::new()) };
    assert!(!empty.is_last_page());
    assert_eq!(empty.cursor(), Some(""));
}
