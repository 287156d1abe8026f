use oura_api::query::encode_pairs;
use oura_api::{DateQuery, DatetimeQuery, OuraClient, Query, QueryKind};

fn decoded(query: &str) -> Vec<(String, String)> {
    form_urlencoded::parse(query.as_bytes()).into_owned().collect()
}

fn owned(pairs: &[(&str, &str)]) -> Vec<(String, String)> {
    pairs.iter().map(|(k, v)| (k.to_string(), v.to_string())).collect()
}

#[test]
fn an_empty_query_has_no_parameters() {
    let days = DateQuery::builder().build();
    assert!(days.pairs().is_empty());
    assert_eq!(days.query_string(), "");
    let instants = DatetimeQuery::builder().build();
    assert!(instants.pairs().is_empty());
    assert_eq!(instants.query_string(), "");

    let client = OuraClient::build_with_base_url("token", "http://host");
    let url = client.list_sleep(days).url;
    assert_eq!(url, "http://host/sleep");
    assert!(!url.contains("start_date"));
    assert!(!url.contains("end_date"));
    assert!(!url.contains("next_token"));
    assert!(!url.contains('?'));
}

#[test]
fn a_full_date_query_sends_all_three_parameters() {
    let query = DateQuery::builder()
        .start_date("2022-12-01")
        .end_date("2023-08-20")
        .next_token("next_token")
        .build();
    assert_eq!(
        query.pairs(),
        vec![
            ("start_date", "2022-12-01"),
            ("end_date", "2023-08-20"),
            ("next_token", "next_token"),
        ]
    );
    assert_eq!(
        query.query_string(),
        "start_date=2022-12-01&end_date=2023-08-20&next_token=next_token"
    );
}

#[test]
fn absent_fields_are_left_out() {
    let only_end = DateQuery::builder().end_date("2023-08-20").build();
    assert_eq!(only_end.pairs(), vec![("end_date", "2023-08-20")]);
    assert_eq!(only_end.query_string(), "end_date=2023-08-20");

    let only_cursor = DateQuery::builder().next_token("abc").build();
    assert_eq!(only_cursor.query_string(), "next_token=abc");

    let start_and_cursor = DateQuery::builder().next_token("abc").start_date("2023-01-01").build();
    assert_eq!(start_and_cursor.query_string(), "start_date=2023-01-01&next_token=abc");

    let present_but_empty = DateQuery::builder().start_date("").build();
    assert_eq!(present_but_empty.query_string(), "start_date=");
}

#[test]
fn a_datetime_query_uses_the_datetime_names() {
    let query = DatetimeQuery::builder()
        .start_datetime("2021-11-01T00:00:00-08:00")
        .end_datetime("2021-12-01T00:00:00-08:00")
        .next_token("n")
        .build();
    assert_eq!(
        query.pairs(),
        vec![
            ("start_datetime", "2021-11-01T00:00:00-08:00"),
            ("end_datetime", "2021-12-01T00:00:00-08:00"),
            ("next_token", "n"),
        ]
    );
    assert_eq!(
        query.query_string(),
        "start_datetime=2021-11-01T00%3A00%3A00-08%3A00&end_datetime=2021-12-01T00%3A00%3A00-08%3A00&next_token=n"
    );
    let client = OuraClient::build_with_base_url("token", "http://host");
    assert_eq!(
        client.list_heart_rate(query).url,
        "http://host/heartrate?start_datetime=2021-11-01T00%3A00%3A00-08%3A00&end_datetime=2021-12-01T00%3A00%3A00-08%3A00&next_token=n"
    );
}

#[test]
fn a_later_setting_replaces_an_earlier_one() {
    let query = DateQuery::builder().start_date("2023-01-01").start_date("2023-02-02").build();
    assert_eq!(query.query_string(), "start_date=2023-02-02");
}

#[test]
fn values_are_form_encoded() {
    let query = DateQuery::builder().next_token("a b&c=d/\u{e9}+%").build();
    assert_eq!(query.query_string(), "next_token=a+b%26c%3Dd%2F%C3%A9%2B%25");
    assert_eq!(
        encode_pairs(&vec![("k 1", "\u{0}\u{7f}~"), ("\u{20ac}", "\u{1f600}")]),
        "k+1=%00%7F%7E&%E2%82%AC=%F0%9F%98%80"
    );
}

#[test]
fn plain_characters_are_sent_as_they_are() {
    let plain = "ABCDEFGHIJKLMNOPQRSTUVWXYZabcdefghijklmnopqrstuvwxyz0123456789*-._";
    assert_eq!(encode_pairs(&vec![(plain, plain)]), format!("{}={}", plain, plain));
    assert_eq!(encode_pairs(&vec![]), "");
    assert_eq!(encode_pairs(&vec![("", "")]), "=");
}

#[test]
fn every_byte_that_is_not_plain_is_escaped() {
    for byte in 0u8..=0x7f {
        let text = (byte as char).to_string();
        let encoded = encode_pairs(&vec![("k", text.as_str())]);
        let expected = if byte.is_ascii_alphanumeric() || b"*-._".contains(&byte) {
            format!("k={}", text)
        } else if byte == b' ' {
            "k=+".to_string()
        } else {
            format!("k=%{:02X}", byte)
        };
        assert_eq!(encoded, expected);
    }
}

#[test]
fn the_server_reads_back_what_was_sent() {
    let cursor = "eyJ0IjoiMjAyMy0wOC0yMCJ9==&next_token=x y+z%41\u{fc}";
    let query = DateQuery::builder()
        .start_date("2022-12-01")
        .end_date("2023-08-20")
        .next_token(cursor)
        .build();
    assert_eq!(
        decoded(&query.query_string()),
        owned(&[("start_date", "2022-12-01"), ("end_date", "2023-08-20"), ("next_token", cursor)])
    );

    let client = OuraClient::build_with_base_url("token", "http://127.0.0.1:1234");
    let request = client.list_workout(query);
    let url = reqwest::Url::parse(&request.url).unwrap();
    assert_eq!(url.path(), "/workout");
    assert_eq!(url.query(), Some(query.query_string().as_str()));
    let pairs: Vec<(String, String)> = url.query_pairs().into_owned().collect();
    assert_eq!(
        pairs,
        owned(&[("start_date", "2022-12-01"), ("end_date", "2023-08-20"), ("next_token", cursor)])
    );
}

#[test]
fn a_query_knows_its_kind() {
    let days = Query::Date(DateQuery::builder().start_date("2023-01-01").build());
    let instants = Query::Datetime(DatetimeQuery::builder().start_datetime("2023-01-01T00:00:00Z").build());
    assert_eq!(days.kind(), QueryKind::Date);
    assert_eq!(instants.kind(), QueryKind::Datetime);
    assert_eq!(days.query_string(), "start_date=2023-01-01");
    assert_eq!(instants.query_string(), "start_datetime=2023-01-01T00%3A00%3A00Z");
}
