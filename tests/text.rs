use greenpoll::error::ServiceError;
use greenpoll::routes::json::timestamp;
use greenpoll::template::{fill_template, replace};
use greenpoll::util::{ErrorJSON, SuccessJSON};
use greenpoll::validate::{check_email, check_option_value, check_password, check_title, check_username};

#[test]
fn fills_placeholders() {
    let t = String::from("Visit {url}verify/{verify_id} now. {url}");
    let ps = vec![
        (String::from("url"), String::from("https://example.com/")),
        (String::from("verify_id"), String::from("abc123")),
    ];
    assert_eq!(fill_template(&t, &ps), "Visit https://example.com/verify/abc123 now. https://example.com/");
}

#[test]
fn unknown_placeholders_stay() {
    let t = String::from("Hello {name}, {other}");
    let ps = vec![(String::from("name"), String::from("Ann"))];
    assert_eq!(fill_template(&t, &ps), "Hello Ann, {other}");
    assert_eq!(fill_template(&t, &vec![]), "Hello {name}, {other}");
}

#[test]
fn replace_scans_left_to_right() {
    assert_eq!(replace("aaaa", "aa", "b"), "bb");
    assert_eq!(replace("abc", "", "x"), "abc");
    assert_eq!(replace("", "a", "x"), "");
    assert_eq!(replace("héllo wörld", "ö", "o"), "héllo world");
}

#[test]
fn length_rules_count_characters() {
    assert!(check_username(&"é".repeat(63)).is_ok());
    assert_eq!(check_username(&"é".repeat(64)), Err(ServiceError::UsernameLength));
    assert_eq!(check_email(&String::from("a@b.")), Err(ServiceError::EmailLength));
    assert!(check_password(&String::from("12345678")).is_ok());
    assert!(check_title(&"t".repeat(255)).is_ok());
    assert_eq!(check_title(&"t".repeat(256)), Err(ServiceError::TitleLength));
    assert_eq!(check_option_value(&String::new()), Err(ServiceError::OptionValueLength));
}

#[test]
fn bodies() {
    assert!(SuccessJSON::new().success);
    assert_eq!(ErrorJSON::from_error(ServiceError::NotLoggedIn).error, "Not logged in");
    assert_eq!(ServiceError::InvalidVerifyId.message(), "Invalid verify ID");
}

#[test]
fn timestamps_are_capped() {
    assert_eq!(timestamp(0), 0);
    assert_eq!(timestamp(1_700_000_000), 1_700_000_000);
    assert_eq!(timestamp(u64::MAX), i64::MAX);
}
