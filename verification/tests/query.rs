use nrfcloud::messages::ListMessagesParams;
use nrfcloud::query::decimal_string;

fn pair(name: &str, value: &str) -> (String, String) {
    (name.to_string(), value.to_string())
}

fn text(value: &str) -> Option<String> {
    Some(value.to_string())
}

#[test]
fn decimal_string_of_single_digits() {
    let digits = ["0", "1", "2", "3", "4", "5", "6", "7", "8", "9"];
    let mut n: u32 = 0;
    for digit in digits {
        assert_eq!(decimal_string(n), digit);
        n += 1;
    }
}

#[test]
fn decimal_string_has_no_sign_and_no_leading_zero() {
    assert_eq!(decimal_string(10), "10");
    assert_eq!(decimal_string(99), "99");
    assert_eq!(decimal_string(100), "100");
    assert_eq!(decimal_string(1005), "1005");
    assert_eq!(decimal_string(120030), "120030");
    assert_eq!(decimal_string(4294967295), "4294967295");
}

#[test]
fn decimal_string_agrees_with_the_standard_rendering() {
    let samples: [u32; 8] = [0, 9, 10, 11, 255, 65536, 999999999, 4294967294];
    for n in samples {
        assert_eq!(decimal_string(n), n.to_string());
        let back: u32 = decimal_string(n).parse().unwrap();
        assert_eq!(back, n);
    }
}

#[test]
fn default_params_set_nothing() {
    let params = ListMessagesParams::default();
    assert_eq!(params.appId, None);
    assert_eq!(params.deviceId, None);
    assert_eq!(params.topic, None);
    assert_eq!(params.start, None);
    assert_eq!(params.end, None);
    assert_eq!(params.pageLimit, None);
    assert_eq!(params.pageNextToken, None);
    assert_eq!(params.pageSort, None);
    assert_eq!(params.to_query(), Vec::new());
}

#[test]
fn all_params_come_out_under_their_names_in_order() {
    let params = ListMessagesParams {
        appId: text("app"),
        deviceId: text("nrf-1234"),
        topic: text("d2c"),
        start: text("2024-01-01T00:00:00Z"),
        end: text("2024-01-02T00:00:00Z"),
        pageLimit: Some(25),
        pageNextToken: text("tok"),
        pageSort: text("asc"),
    };
    assert_eq!(
        params.to_query(),
        vec![
            pair("appId", "app"),
            pair("deviceId", "nrf-1234"),
            pair("topic", "d2c"),
            pair("start", "2024-01-01T00:00:00Z"),
            pair("end", "2024-01-02T00:00:00Z"),
            pair("pageLimit", "25"),
            pair("pageNextToken", "tok"),
            pair("pageSort", "asc"),
        ]
    );
}

#[test]
fn only_the_set_params_come_out() {
    let mut params = ListMessagesParams::default();
    params.deviceId = text("nrf-1");
    params.pageNextToken = text("next1");
    let query = params.to_query();
    assert_eq!(query, vec![pair("deviceId", "nrf-1"), pair("pageNextToken", "next1")]);
    let absent = ["appId", "topic", "start", "end", "pageLimit", "pageSort"];
    for name in absent {
        assert!(query.iter().all(|p| p.0 != name));
    }
}

#[test]
fn each_param_alone_gives_one_pair() {
    let names =
        ["appId", "deviceId", "topic", "start", "end", "pageNextToken", "pageSort"];
    for name in names {
        let mut params = ListMessagesParams::default();
        match name {
            "appId" => params.appId = text("v"),
            "deviceId" => params.deviceId = text("v"),
            "topic" => params.topic = text("v"),
            "start" => params.start = text("v"),
            "end" => params.end = text("v"),
            "pageNextToken" => params.pageNextToken = text("v"),
            _ => params.pageSort = text("v"),
        }
        assert_eq!(params.to_query(), vec![pair(name, "v")]);
    }
    let mut params = ListMessagesParams::default();
    params.pageLimit = Some(0);
    assert_eq!(params.to_query(), vec![pair("pageLimit", "0")]);
}

#[test]
fn a_param_set_to_empty_text_is_sent_and_an_unset_one_is_not() {
    let mut params = ListMessagesParams::default();
    params.topic = text("");
    assert_eq!(params.to_query(), vec![pair("topic", "")]);
}

#[test]
fn param_values_are_sent_as_they_are() {
    let mut params = ListMessagesParams::default();
    params.start = text("not a timestamp");
    params.pageSort = text("sideways & back");
    params.pageLimit = Some(4294967295);
    assert_eq!(
        params.to_query(),
        vec![
            pair("start", "not a timestamp"),
            pair("pageLimit", "4294967295"),
            pair("pageSort", "sideways & back"),
        ]
    );
}
