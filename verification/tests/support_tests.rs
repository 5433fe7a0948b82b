use zkscan_api::addresses::split_addresses;
use zkscan_api::config::effective_port;
use zkscan_api::config::mode_is_dev;
use zkscan_api::config::parse_port;
use zkscan_api::errors::AppError;
use zkscan_api::errors::ErrorDisposition;
use zkscan_api::errors::ErrorKind;
use zkscan_api::errors::disposition;
use zkscan_api::pagination::Pagination;
use zkscan_api::store::StoreModel;

#[test]
fn limit_defaults_to_50_and_caps_at_100() {
    assert_eq!(Pagination { size: None, page: None }.limit(), 50);
    assert_eq!(Pagination { size: Some(30), page: None }.limit(), 30);
    assert_eq!(Pagination { size: Some(100), page: None }.limit(), 100);
    assert_eq!(Pagination { size: Some(250), page: None }.limit(), 100);
}

#[test]
fn offset_floors_page_at_10_times_limit() {
    assert_eq!(Pagination { size: None, page: None }.offset(), 500);
    assert_eq!(Pagination { size: None, page: Some(3) }.offset(), 500);
    assert_eq!(Pagination { size: None, page: Some(12) }.offset(), 600);
    assert_eq!(Pagination { size: Some(20), page: Some(15) }.offset(), 300);
}

#[test]
fn store_serves_until_expiry_and_replaces_wholesale() {
    let mut s = StoreModel::new();
    let key = "k:GET".to_string();
    s.set(key.clone(), b"one".to_vec(), 100);
    assert_eq!(s.get(&key, 99), Some(b"one".to_vec()));
    assert_eq!(s.get(&key, 100), None);
    assert_eq!(s.get(&"other:GET".to_string(), 0), None);
    s.set(key.clone(), b"two".to_vec(), 200);
    assert_eq!(s.get(&key, 150), Some(b"two".to_vec()));
}

#[test]
fn dispositions_follow_the_taxonomy() {
    assert!(matches!(
        disposition(&ErrorKind::StoreUnavailable),
        ErrorDisposition::SwallowedAtStoreBoundary
    ));
    assert!(matches!(disposition(&ErrorKind::HandlerError), ErrorDisposition::SurfacedToClient));
    assert!(matches!(disposition(&ErrorKind::FetchError), ErrorDisposition::IsolatedToTick));
    assert!(matches!(
        disposition(&ErrorKind::FatalFetchError),
        ErrorDisposition::TerminatesProcess
    ));
    assert!(matches!(
        disposition(&ErrorKind::SerializationError),
        ErrorDisposition::SurfacedToClient
    ));
}

#[test]
fn app_error_status_defaults_to_500() {
    let plain = AppError::new("query failed".to_string());
    assert_eq!(plain.response_status(), 500);
    assert_eq!(plain.message(), "query failed");
    let coded = AppError::status(418, "teapot".to_string());
    assert_eq!(coded.response_status(), 418);
}

#[test]
fn not_found_is_a_404() {
    let e = AppError::not_found();
    assert_eq!(e.response_status(), 404);
    assert_eq!(e.message(), "Not Found");
}

#[test]
fn port_parsing_accepts_digits_in_range() {
    assert_eq!(parse_port("8080"), Some(8080));
    assert_eq!(parse_port("1"), Some(1));
    assert_eq!(parse_port("65535"), Some(65535));
    assert_eq!(parse_port("0080"), Some(80));
}

#[test]
fn port_parsing_rejects_everything_else() {
    assert_eq!(parse_port(""), None);
    assert_eq!(parse_port("abc"), None);
    assert_eq!(parse_port("80a"), None);
    assert_eq!(parse_port("-1"), None);
    assert_eq!(parse_port("65536"), None);
    assert_eq!(parse_port("999999999999"), None);
}

#[test]
fn port_defaults_to_8080_when_unset() {
    assert_eq!(effective_port(None), Some(8080));
    assert_eq!(effective_port(Some("9000")), Some(9000));
    assert_eq!(effective_port(Some("bad")), None);
}

#[test]
fn address_lists_split_on_commas() {
    assert_eq!(split_addresses("a"), vec!["a".to_string()]);
    assert_eq!(split_addresses("a,b,c"), vec!["a".to_string(), "b".to_string(), "c".to_string()]);
    assert_eq!(split_addresses(""), vec!["".to_string()]);
    assert_eq!(split_addresses("a,,b"), vec!["a".to_string(), "".to_string(), "b".to_string()]);
    assert_eq!(split_addresses("a,b,"), vec!["a".to_string(), "b".to_string(), "".to_string()]);
}

#[test]
fn address_lists_cap_at_twenty() {
    let many = (0..30).map(|i| i.to_string()).collect::<Vec<_>>().join(",");
    let split = split_addresses(&many);
    assert_eq!(split.len(), 20);
    assert_eq!(split[0], "0");
    assert_eq!(split[19], "19");
}

#[test]
fn dev_mode_only_on_exact_setting() {
    assert!(mode_is_dev(Some("dev")));
    assert!(!mode_is_dev(Some("prod")));
    assert!(!mode_is_dev(Some("DEV")));
    assert!(!mode_is_dev(None));
}
