use event_publisher::cms::FakeCms;
use event_publisher::handler::{aggregate, decode_body, handle_email, response_of};
use event_publisher::Error;

#[test]
fn decode_body_accepts_text() {
    let body = b"<img src=\"a.jpg\">".to_vec();
    assert_eq!(decode_body(&body), Ok("<img src=\"a.jpg\">"));
}

#[test]
fn decode_body_rejects_invalid_utf8() {
    let body = vec![0xff, 0xfe, 0x80];
    assert_eq!(decode_body(&body), Err(Error::ParseError));
}

#[test]
fn aggregate_of_no_outcomes_is_success() {
    let outcomes: Vec<Result<(), Error>> = vec![];
    assert_eq!(aggregate(&outcomes), Ok(()));
}

#[test]
fn aggregate_of_successes_is_success() {
    let outcomes: Vec<Result<(), Error>> = vec![Ok(()), Ok(()), Ok(())];
    assert_eq!(aggregate(&outcomes), Ok(()));
}

#[test]
fn aggregate_reports_the_first_failure() {
    let outcomes: Vec<Result<(), Error>> = vec![
        Ok(()),
        Err(Error::Api("first".to_string())),
        Ok(()),
        Err(Error::Api("second".to_string())),
    ];
    assert_eq!(aggregate(&outcomes), Err(Error::Api("first".to_string())));
}

#[test]
fn one_failure_among_three_fails_the_request() {
    // Publishing calls one and three succeed, call two fails: the overall
    // result is failure.
    let cms = FakeCms {
        fail_images: vec!["two.png".to_string()],
    };
    let email = r#"<img src="one.png"><img src="two.png"><img src="three.png">"#;
    assert!(handle_email(&cms, email).is_err());
}

#[test]
fn all_successes_succeed() {
    let cms = FakeCms { fail_images: vec![] };
    let email = r#"<img src="one.png"><img src="two.png">"#;
    assert_eq!(handle_email(&cms, email), Ok(()));
}

#[test]
fn no_images_is_a_successful_no_op() {
    // The CMS would reject anything sent to it, so success shows that no
    // publish call was issued.
    let cms = FakeCms {
        fail_images: vec!["one.png".to_string(), "two.png".to_string()],
    };
    assert_eq!(
        handle_email(&cms, "<html><body><p>plain text</p></body></html>"),
        Ok(())
    );
    assert_eq!(handle_email(&cms, ""), Ok(()));
}

#[test]
fn responses_follow_the_outcome() {
    let (status, body) = response_of(&Ok(()));
    assert_eq!(status, 200);
    assert_eq!(body, "Success!");

    let (status, body) = response_of(&Err(Error::Api("boom".to_string())));
    assert_eq!(status, 500);
    assert_eq!(body, "The API returned an error: boom");

    let (status, body) = response_of(&Err(Error::ParseError));
    assert_eq!(status, 500);
    assert_eq!(body, "The email could not be parsed.");
}
