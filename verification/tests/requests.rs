use oura_api::{
    conclude, DateQuery, DatetimeQuery, ListResponse, OuraClient, Query, QueryKind, Resource,
    API_BASE_URL,
};

const BASE: &str = "http://127.0.0.1:1234";

#[test]
fn it_applies_query_to_list_requests() {
    let client = OuraClient::build_with_base_url("token", BASE);
    let query = DateQuery::builder()
        .start_date("2022-12-01")
        .end_date("2023-08-20")
        .next_token("next_token")
        .build();

    let request = client.list_daily_activity(query);

    assert_eq!(request.method(), "GET");
    assert_eq!(
        request.url,
        "http://127.0.0.1:1234/daily_activity?start_date=2022-12-01&end_date=2023-08-20&next_token=next_token"
    );
    assert_eq!(request.authorization, "Bearer token");

    let page = ListResponse { data: vec![1u8, 2, 3], next_token: None };
    let result = conclude(200, Ok::<ListResponse<u8>, String>(page));
    assert!(result.is_ok());
}

#[test]
fn it_returns_error_for_error_status() {
    let client = OuraClient::build_with_base_url("token", BASE);

    let request = client.list_daily_activity(DateQuery::builder().build());
    assert_eq!(request.method(), "GET");
    assert_eq!(request.url, "http://127.0.0.1:1234/daily_activity");
    assert_eq!(request.authorization, "Bearer token");

    let decoded = serde_json::from_str::<serde_json::Value>("").map_err(|e| e.to_string());
    let result = conclude(400, decoded);

    assert_eq!(
        result
            .unwrap_err()
            .status()
            .map(|status| reqwest::StatusCode::from_u16(status).unwrap()),
        Some(reqwest::StatusCode::BAD_REQUEST)
    );
}

#[test]
fn new_client_uses_the_production_base_url() {
    let client = OuraClient::new("token");
    assert_eq!(API_BASE_URL, "https://api.ouraring.com/v2/usercollection");
    assert_eq!(client.base_url(), "https://api.ouraring.com/v2/usercollection");
    assert_eq!(client.token(), "token");
    assert_eq!(
        client.get_personal_info().url,
        "https://api.ouraring.com/v2/usercollection/personal_info"
    );
    assert_eq!(
        client.get_sleep("abc").url,
        "https://api.ouraring.com/v2/usercollection/sleep/abc"
    );
}

#[test]
fn every_request_carries_the_token_of_its_client() {
    let client = OuraClient::build_with_base_url("s3cr3t.token-value", BASE);
    let expected = "Bearer s3cr3t.token-value";
    let empty = Query::Date(DateQuery::builder().build());
    let empty_instants = Query::Datetime(DatetimeQuery::builder().build());
    let mut seen = 0;
    for resource in Resource::all() {
        if let Some(request) = client.get_by_id(resource, "123") {
            assert_eq!(request.authorization, expected);
            seen += 1;
        }
        if let Some(request) = client.get_singular(resource) {
            assert_eq!(request.authorization, expected);
            seen += 1;
        }
        if let Some(request) = client.list(resource, &empty) {
            assert_eq!(request.authorization, expected);
            seen += 1;
        }
        if let Some(request) = client.list(resource, &empty_instants) {
            assert_eq!(request.authorization, expected);
            seen += 1;
        }
    }
    assert_eq!(seen, 26);
}

#[test]
fn get_and_list_go_to_the_path_of_the_resource() {
    let client = OuraClient::build_with_base_url("token", BASE);
    let mut both = 0;
    for resource in Resource::all() {
        if !(resource.has_get() && resource.has_list()) {
            continue;
        }
        both += 1;
        let get = client.get_by_id(resource, "123").unwrap();
        assert_eq!(get.method(), "GET");
        assert_eq!(get.url, format!("{}/{}/123", BASE, resource.path()));

        let query = match resource.query_kind() {
            QueryKind::Date => Query::Date(DateQuery::builder().build()),
            QueryKind::Datetime => Query::Datetime(DatetimeQuery::builder().build()),
        };
        let list = client.list(resource, &query).unwrap();
        assert_eq!(list.method(), "GET");
        assert_eq!(list.url, format!("{}/{}", BASE, resource.path()));
        assert!(!list.url.contains('?'));
    }
    assert_eq!(both, 12);
}

#[test]
fn the_resources_and_their_operations() {
    let all = Resource::all();
    assert_eq!(all.len(), 14);
    let paths: Vec<&str> = all.iter().map(|r| r.path()).collect();
    assert_eq!(
        paths,
        vec![
            "daily_activity",
            "daily_readiness",
            "daily_sleep",
            "daily_spo2",
            "heartrate",
            "personal_info",
            "rest_mode_period",
            "ring_configuration",
            "session",
            "sleep",
            "sleep_time",
            "tag",
            "tag/v2",
            "workout",
        ]
    );
    for resource in all {
        match resource {
            Resource::HeartRate => {
                assert!(!resource.has_get());
                assert!(resource.has_list());
                assert!(!resource.is_singular());
                assert_eq!(resource.query_kind(), QueryKind::Datetime);
            }
            Resource::PersonalInfo => {
                assert!(!resource.has_get());
                assert!(!resource.has_list());
                assert!(resource.is_singular());
            }
            _ => {
                assert!(resource.has_get());
                assert!(resource.has_list());
                assert!(!resource.is_singular());
                assert_eq!(resource.query_kind(), QueryKind::Date);
            }
        }
    }
}

#[test]
fn operations_that_a_resource_lacks_give_no_request() {
    let client = OuraClient::build_with_base_url("token", BASE);
    let days = Query::Date(DateQuery::builder().build());
    let instants = Query::Datetime(DatetimeQuery::builder().build());

    assert!(client.get_by_id(Resource::HeartRate, "123").is_none());
    assert!(client.get_by_id(Resource::PersonalInfo, "123").is_none());
    assert!(client.get_singular(Resource::Sleep).is_none());
    assert!(client.get_singular(Resource::HeartRate).is_none());
    assert!(client.list(Resource::PersonalInfo, &days).is_none());
    assert!(client.list(Resource::PersonalInfo, &instants).is_none());
    assert!(client.list(Resource::HeartRate, &days).is_none());
    assert!(client.list(Resource::Workout, &instants).is_none());

    assert_eq!(
        client.get_singular(Resource::PersonalInfo).unwrap().url,
        "http://127.0.0.1:1234/personal_info"
    );
    assert_eq!(
        client.list(Resource::HeartRate, &instants).unwrap().url,
        "http://127.0.0.1:1234/heartrate"
    );
    assert_eq!(
        client.get_by_id(Resource::TagV2, "t-1").unwrap().url,
        "http://127.0.0.1:1234/tag/v2/t-1"
    );
}

#[test]
fn the_generic_operations_agree_with_the_named_ones() {
    let client = OuraClient::build_with_base_url("token", BASE);
    let query = DateQuery::builder().start_date("2023-01-01").build();
    assert_eq!(
        client.list(Resource::Session, &Query::Date(query)).unwrap(),
        client.list_session(query)
    );
    assert_eq!(client.get_by_id(Resource::Tag, "9").unwrap(), client.get_tag("9"));
    assert_eq!(
        client.get_singular(Resource::PersonalInfo).unwrap(),
        client.get_personal_info()
    );
    let instants = DatetimeQuery::builder().end_datetime("2023-01-01T00:00:00+00:00").build();
    assert_eq!(
        client.list(Resource::HeartRate, &Query::Datetime(instants)).unwrap(),
        client.list_heart_rate(instants)
    );
}
