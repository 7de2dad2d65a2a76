use post_intake::error::NewPostError;
use post_intake::post::{NewPost, PostBody, PostImage};

#[test]
fn post_keeps_body_and_image_path_as_given() {
    let post = NewPost::new("hello world".to_string(), "../uploads/x-cat.png".to_string()).unwrap();
    assert_eq!(post.body.as_str(), "hello world");
    assert_eq!(post.image.path, "../uploads/x-cat.png");
    assert!(post.image.is_present());
}

#[test]
fn post_body_is_not_trimmed() {
    let post = NewPost::new("  padded\n".to_string(), String::new()).unwrap();
    assert_eq!(post.body.as_str(), "  padded\n");
}

#[test]
fn post_without_image_has_an_empty_path() {
    let post = NewPost::new("text".to_string(), String::new()).unwrap();
    assert_eq!(post.image.path, "");
    assert!(!post.image.is_present());
}

#[test]
fn post_with_empty_body_is_a_parse_error() {
    assert_eq!(NewPost::new(String::new(), String::new()), Err(NewPostError::ParseError));
    assert_eq!(
        NewPost::new(String::new(), "../uploads/x-cat.png".to_string()),
        Err(NewPostError::ParseError)
    );
}

#[test]
fn post_with_whitespace_body_is_a_parse_error() {
    for body in [" ", "   ", "\n", "\t \r\n", "\u{00A0}\u{3000}"] {
        assert_eq!(
            NewPost::new(body.to_string(), String::new()),
            Err(NewPostError::ParseError),
            "{:?}",
            body
        );
    }
}

#[test]
fn post_body_parse_refuses_blank_text_only() {
    assert!(PostBody::parse(String::new()).is_none());
    assert!(PostBody::parse("  ".to_string()).is_none());
    assert_eq!(PostBody::parse(" a ".to_string()).unwrap().as_str(), " a ");
    assert_eq!(PostBody::parse("\u{200B}".to_string()).unwrap().as_str(), "\u{200B}");
}

#[test]
fn post_image_is_present_by_its_path() {
    assert!(PostImage { path: "p".to_string() }.is_present());
    assert!(!PostImage { path: String::new() }.is_present());
}
