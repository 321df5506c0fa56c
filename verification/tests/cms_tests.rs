use event_publisher::cms::{basic_auth_value, classify_status, json_body, Cms, FakeCms};
use event_publisher::{Error, Event};

#[test]
fn basic_auth_encodes_the_credential_pair() {
    let value = basic_auth_value("user", "pass");
    assert_eq!(value, "Basic dXNlcjpwYXNz");
}

#[test]
fn basic_auth_of_empty_credentials() {
    // base64 of ":" alone.
    let value = basic_auth_value("", "");
    assert_eq!(value, "Basic Og==");
}

#[test]
fn json_body_holds_the_three_fields() {
    let event = Event::new_at("flyer.png".to_string(), 0);
    let body = json_body(&event);
    assert_eq!(
        body,
        "{\"title\":\"flyer.png\",\"start_date\":\"1970-01-04T00:00:00Z\",\"image\":\"flyer.png\"}"
    );
}

#[test]
fn json_body_escapes_special_characters() {
    let event = Event::new_at("a\"b\\c\nd".to_string(), 0);
    let body = json_body(&event);
    assert_eq!(
        body,
        "{\"title\":\"a\\\"b\\\\c\\nd\",\"start_date\":\"1970-01-04T00:00:00Z\",\"image\":\"a\\\"b\\\\c\\nd\"}"
    );
}

#[test]
fn json_body_escapes_control_characters() {
    let event = Event::new_at("a\u{1}b\tc".to_string(), 0);
    let body = json_body(&event);
    assert_eq!(
        body,
        "{\"title\":\"a\\u0001b\\tc\",\"start_date\":\"1970-01-04T00:00:00Z\",\"image\":\"a\\u0001b\\tc\"}"
    );
}

#[test]
fn success_statuses_are_ok() {
    assert_eq!(classify_status(200), Ok(()));
    assert_eq!(classify_status(204), Ok(()));
    assert_eq!(classify_status(299), Ok(()));
}

#[test]
fn error_statuses_carry_the_code() {
    assert_eq!(
        classify_status(404),
        Err(Error::Api(
            "Failed to create event with status code: 404".to_string()
        ))
    );
    assert_eq!(
        classify_status(500),
        Err(Error::Api(
            "Failed to create event with status code: 500".to_string()
        ))
    );
    assert_eq!(
        classify_status(300),
        Err(Error::Api(
            "Failed to create event with status code: 300".to_string()
        ))
    );
    // An unknown status is reported as zero.
    assert_eq!(
        classify_status(0),
        Err(Error::Api(
            "Failed to create event with status code: 0".to_string()
        ))
    );
}

#[test]
fn fake_cms_rejects_only_listed_images() {
    let cms = FakeCms {
        fail_images: vec!["bad.png".to_string()],
    };
    let good = Event::new_at("good.png".to_string(), 0);
    let bad = Event::new_at("bad.png".to_string(), 0);
    assert!(cms.save_event(&good).is_ok());
    assert!(cms.save_event(&bad).is_err());
}

#[test]
fn error_messages() {
    assert_eq!(
        Error::ParseError.message(),
        "The email could not be parsed."
    );
    assert_eq!(
        Error::Api("boom".to_string()).message(),
        "The API returned an error: boom"
    );
}
