use animal_viewer::viewer::{decode_body, Model, Msg, ViewTree};

const DOG_URL: &str = "https://dog.ceo/api/breeds/image/random";
const FOX_URL: &str = "https://randomfox.ca/floof/";

#[test]
fn initial_state_is_loading_and_requests_dog() {
    let (model, msg) = Model::create();
    assert!(model.is_loading);
    assert!(model.data.is_none());
    assert!(model.error.is_none());
    match msg {
        Msg::StartFetch(name) => assert_eq!(name, "Dog"),
        _ => panic!("the initial message must start a fetch"),
    }
}

#[test]
fn start_fetch_targets_dog_endpoint() {
    let (mut model, _) = Model::create();
    let (render, url) = model.update(Msg::StartFetch("Dog".to_string()));
    assert!(render);
    assert_eq!(url.as_deref(), Some(DOG_URL));
    assert!(model.is_loading);
}

#[test]
fn start_fetch_targets_fox_endpoint() {
    let (mut model, _) = Model::create();
    let (render, url) = model.update(Msg::StartFetch("Fox".to_string()));
    assert!(render);
    assert_eq!(url.as_deref(), Some(FOX_URL));
    assert!(model.is_loading);
}

#[test]
fn start_fetch_unknown_name_defaults_to_dog() {
    let (mut model, _) = Model::create();
    let (_, url) = model.update(Msg::StartFetch("Cat".to_string()));
    assert_eq!(url.as_deref(), Some(DOG_URL));
}

#[test]
fn response_with_message_renders_image() {
    let (mut model, _) = Model::create();
    let msg = decode_body(r#"{"message":"http://x/img.png"}"#);
    assert!(matches!(msg, Msg::SuccessFetch(_)));
    let (_, action) = model.update(msg);
    assert!(action.is_none());
    assert!(!model.is_loading);
    assert_eq!(model.view(), ViewTree::Image("http://x/img.png".to_string()));
}

#[test]
fn message_field_checked_before_image_field() {
    let (mut model, _) = Model::create();
    model.update(decode_body(r#"{"message":"first","image":"second"}"#));
    assert_eq!(model.view(), ViewTree::Image("first".to_string()));
}

#[test]
fn response_with_image_field_renders_image() {
    let (mut model, _) = Model::create();
    model.update(decode_body(r#"{"image":"http://y/fox.jpg"}"#));
    assert_eq!(model.view(), ViewTree::Image("http://y/fox.jpg".to_string()));
}

#[test]
fn non_string_message_falls_back_to_image() {
    let (mut model, _) = Model::create();
    model.update(decode_body(r#"{"message":3,"image":"http://z/p.png"}"#));
    assert_eq!(model.view(), ViewTree::Image("http://z/p.png".to_string()));
}

#[test]
fn object_without_known_keys_renders_empty() {
    let (mut model, _) = Model::create();
    model.update(decode_body(r#"{"status":"ok","count":2}"#));
    assert_eq!(model.view(), ViewTree::Empty);
}

#[test]
fn non_object_payload_renders_empty() {
    let (mut model, _) = Model::create();
    model.update(decode_body("[1,2,3]"));
    assert_eq!(model.view(), ViewTree::Empty);
}

#[test]
fn malformed_body_becomes_failure() {
    let msg = decode_body("this is not json");
    assert!(matches!(msg, Msg::FailFetch));
    let (mut model, _) = Model::create();
    let (_, action) = model.update(msg);
    assert!(action.is_none());
    assert!(!model.is_loading);
    assert_eq!(model.error.as_deref(), Some("error"));
    assert_eq!(model.view(), ViewTree::Fail);
}

#[test]
fn error_state_renders_fail() {
    let (mut model, _) = Model::create();
    model.update(Msg::FailFetch);
    assert_eq!(model.view(), ViewTree::Fail);
}

#[test]
fn missing_data_and_error_renders_fail() {
    let model = Model {
        is_loading: false,
        data: None,
        error: None,
    };
    assert_eq!(model.view(), ViewTree::Fail);
}

#[test]
fn loading_overrides_stale_data_and_error() {
    let (mut model, _) = Model::create();
    model.update(decode_body(r#"{"message":"stale"}"#));
    model.update(Msg::FailFetch);
    model.update(Msg::StartFetch("Fox".to_string()));
    assert_eq!(model.view(), ViewTree::Fetching);
}

#[test]
fn rendering_same_state_twice_is_identical() {
    let (mut model, _) = Model::create();
    model.update(decode_body(r#"{"message":"http://x/a.png"}"#));
    assert_eq!(model.view(), model.view());
}

#[test]
fn success_without_payload_shows_none_marker() {
    let model = Model {
        is_loading: false,
        data: None,
        error: None,
    };
    assert_eq!(model.success(), ViewTree::NoData);
}

#[test]
fn placeholder_views_are_fixed() {
    let (model, _) = Model::create();
    assert_eq!(model.fetching(), ViewTree::Fetching);
    assert_eq!(model.fail(), ViewTree::Fail);
}

#[test]
fn end_to_end_fetch_then_failure() {
    let (mut model, initial) = Model::create();
    assert!(model.is_loading);
    assert_eq!(model.view(), ViewTree::Fetching);

    let (_, url) = model.update(initial);
    assert_eq!(url.as_deref(), Some(DOG_URL));

    let (_, action) = model.update(decode_body(r#"{"message":"url1"}"#));
    assert!(action.is_none());
    assert!(!model.is_loading);
    assert!(model.data.is_some());
    assert_eq!(model.view(), ViewTree::Image("url1".to_string()));

    let (_, url) = model.update(Msg::StartFetch("Fox".to_string()));
    assert_eq!(url.as_deref(), Some(FOX_URL));
    assert!(model.is_loading);
    assert_eq!(model.view(), ViewTree::Fetching);

    model.update(Msg::FailFetch);
    assert!(!model.is_loading);
    assert_eq!(model.view(), ViewTree::Fail);
}
