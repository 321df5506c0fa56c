use event_publisher::parse_email;

#[test]
fn it_parses_empty_email() {
    let email = "";
    assert!(parse_email(email).is_empty());
}

#[test]
fn it_parses_single_event() {
    let email = r#"<html><body><img src="event1.jpg"></body></html>"#;
    let events = parse_email(email);
    assert_eq!(events.len(), 1);
    assert_eq!(events[0].image, "event1.jpg");
}

#[test]
fn it_parses_multiple_events() {
    let email = r#"<html><body><img src="event1.jpg"><img src="event2.jpg"></img></body></html>"#;
    let events = parse_email(email);
    assert_eq!(events.len(), 2);
    assert_eq!(events[0].image, "event1.jpg");
    assert_eq!(events[1].image, "event2.jpg");
}

#[test]
fn it_ignores_non_img_tags() {
    let email = r#"<html><body><p>Some text</p><img src="event.jpg"></body></html>"#;
    let events = parse_email(email);
    assert_eq!(events.len(), 1);
    assert_eq!(events[0].image, "event.jpg");
}

#[test]
fn no_images_yields_empty() {
    let events = parse_email("<html><body><p>no images</p></body></html>");
    assert!(events.is_empty());
}

#[test]
fn bare_images_in_document_order() {
    let events = parse_email(r#"<img src="a.jpg"><img src="b.jpg">"#);
    assert_eq!(events.len(), 2);
    assert_eq!(events[0].image, "a.jpg");
    assert_eq!(events[0].title, "a.jpg");
    assert_eq!(events[1].image, "b.jpg");
    assert_eq!(events[1].title, "b.jpg");
}

#[test]
fn only_the_image_is_extracted() {
    let events = parse_email(r#"<p>text</p><img src="x.jpg">"#);
    assert_eq!(events.len(), 1);
    assert_eq!(events[0].image, "x.jpg");
    assert_eq!(events[0].title, "x.jpg");
}

#[test]
fn images_without_src_are_skipped() {
    let events = parse_email(r#"<img><img src="y.jpg"><img alt="z">"#);
    assert_eq!(events.len(), 1);
    assert_eq!(events[0].image, "y.jpg");
}

#[test]
fn parsing_twice_agrees_on_titles_and_images() {
    let email = r#"<img src="a.jpg"><p>t</p><img src="b.jpg">"#;
    let first = parse_email(email);
    let second = parse_email(email);
    assert_eq!(first.len(), second.len());
    for (a, b) in first.iter().zip(second.iter()) {
        assert_eq!(a.image, b.image);
        assert_eq!(a.title, b.title);
    }
}

#[test]
fn malformed_markup_degrades_gracefully() {
    let events = parse_email(r#"<div><img src="a.jpg"<p></span>"#);
    assert!(events.len() <= 1);
    let events = parse_email("<<<>>>");
    assert!(events.is_empty());
}
