use rollingrequests::request::{FormData, FormPart, HttpMethod, Request};

#[test]
fn test_new_request_defaults() {
    let request = Request::new("http://example.com", HttpMethod::Get);
    assert_eq!(request.get_url(), "http://example.com");
    assert_eq!(*request.get_method(), HttpMethod::Get);
    assert!(request.get_post_data().is_none());
    assert!(request.get_headers().is_none());
    assert!(request.get_options().is_empty());
    assert!(request.get_extra_info().is_none());
    assert!(request.get_response_text().is_none());
    assert!(request.get_response_info().is_none());
    assert!(request.get_response_error().is_none());
    assert!(request.get_response_errno().is_none());
}

#[test]
fn test_setters_and_getters() {
    let mut request = Request::new("http://example.com", HttpMethod::Get);

    request.set_url("http://example.org/path");
    assert_eq!(request.get_url(), "http://example.org/path");

    request.set_method(HttpMethod::Post);
    assert_eq!(*request.get_method(), HttpMethod::Post);

    request.set_post_data(Some(r#"{"key": "value"}"#));
    assert_eq!(request.get_post_data().unwrap(), r#"{"key": "value"}"#);
    request.set_post_data(None);
    assert!(request.get_post_data().is_none());

    request.set_extra_info("correlation-17");
    assert_eq!(request.get_extra_info().unwrap(), "correlation-17");

    request.set_response_text("hello");
    assert_eq!(request.get_response_text().unwrap(), "hello");

    request.set_response_info("served from cache");
    assert_eq!(request.get_response_info().unwrap(), "served from cache");

    request.set_response_error("connection reset");
    assert_eq!(request.get_response_error().unwrap(), "connection reset");

    request.set_response_errno(104);
    assert_eq!(request.get_response_errno(), Some(104));
}

#[test]
fn test_fluent_chaining() {
    let mut request = Request::new("http://example.com", HttpMethod::Get);
    request
        .set_method(HttpMethod::Put)
        .set_post_data(Some("body"))
        .set_extra_info("tag");
    assert_eq!(*request.get_method(), HttpMethod::Put);
    assert_eq!(request.get_post_data().unwrap(), "body");
    assert_eq!(request.get_extra_info().unwrap(), "tag");
}

#[test]
fn test_headers_stored_as_given() {
    let mut request = Request::new("http://example.com", HttpMethod::Get);
    request.set_headers(vec![
        ("Content-Type".to_string(), "application/json".to_string()),
        ("X-Custom".to_string(), "one".to_string()),
    ]);
    let headers = request.get_headers().unwrap();
    assert_eq!(headers.len(), 2);
    assert_eq!(headers[0].0, "Content-Type");
    assert_eq!(headers[0].1, "application/json");
    assert_eq!(headers[1].0, "X-Custom");
}

#[test]
fn test_options_set_and_add() {
    let mut request = Request::new("http://example.com", HttpMethod::Get);
    request.set_options(vec![("retry".to_string(), "no".to_string())]);
    assert_eq!(request.get_options().len(), 1);

    request.add_options(vec![("group".to_string(), "batch-a".to_string())]);
    let options = request.get_options();
    assert_eq!(options.len(), 2);
    assert_eq!(options[0].0, "retry");
    assert_eq!(options[1].0, "group");
    assert_eq!(options[1].1, "batch-a");
}

#[test]
fn test_add_options_replaces_on_key_collision() {
    // Options behave as a mapping: adding a pair whose key is already stored
    // replaces the stored value in place; fresh keys are appended after it.
    let mut request = Request::new("http://example.com", HttpMethod::Get);
    request.set_options(vec![
        ("retry".to_string(), "no".to_string()),
        ("group".to_string(), "batch-a".to_string()),
    ]);

    request.add_options(vec![
        ("retry".to_string(), "twice".to_string()),
        ("trace".to_string(), "on".to_string()),
    ]);

    let options = request.get_options();
    assert_eq!(options.len(), 3);
    assert_eq!(options[0], ("retry".to_string(), "twice".to_string()));
    assert_eq!(options[1], ("group".to_string(), "batch-a".to_string()));
    assert_eq!(options[2], ("trace".to_string(), "on".to_string()));
}

#[test]
fn test_form_parts_accumulate() {
    let mut request = Request::new("http://example.com", HttpMethod::Post);
    request.add_form_text("field", "value");
    request.add_form_file("upload", "notes.txt", vec![104, 105]);

    let mut found_text = false;
    let mut found_file = false;
    match &request.multipart_form_data {
        Some(form) => {
            assert_eq!(form.parts.len(), 2);
            match &form.parts[0] {
                FormPart::Text { name, value } => {
                    assert_eq!(name, "field");
                    assert_eq!(value, "value");
                    found_text = true;
                }
                FormPart::File { .. } => {}
            }
            match &form.parts[1] {
                FormPart::File { name, file_name, bytes } => {
                    assert_eq!(name, "upload");
                    assert_eq!(file_name, "notes.txt");
                    assert_eq!(bytes, &vec![104, 105]);
                    found_file = true;
                }
                FormPart::Text { .. } => {}
            }
        }
        None => panic!("form data expected"),
    }
    assert!(found_text && found_file);
}

#[test]
fn test_set_multipart_form_data_replaces() {
    let mut request = Request::new("http://example.com", HttpMethod::Post);
    request.add_form_text("old", "old");
    request.set_multipart_form_data(FormData {
        parts: vec![FormPart::Text { name: "new".to_string(), value: "new".to_string() }],
    });
    let form = request.multipart_form_data.as_ref().unwrap();
    assert_eq!(form.parts.len(), 1);
    match &form.parts[0] {
        FormPart::Text { name, .. } => assert_eq!(name, "new"),
        FormPart::File { .. } => panic!("text part expected"),
    }
}

#[test]
fn test_dispatch_clone_leaves_form_behind() {
    let mut request = Request::new("http://example.com", HttpMethod::Post);
    request
        .set_post_data(Some("payload"))
        .set_extra_info("tag-3")
        .set_headers(vec![("a".to_string(), "b".to_string())]);
    request.set_options(vec![("k".to_string(), "v".to_string())]);
    request.add_form_text("field", "value");
    request.set_response_errno(7);

    let copy = request.dispatch_clone();
    assert_eq!(copy.get_url(), "http://example.com");
    assert_eq!(*copy.get_method(), HttpMethod::Post);
    assert_eq!(copy.get_post_data().unwrap(), "payload");
    assert_eq!(copy.get_extra_info().unwrap(), "tag-3");
    assert_eq!(copy.get_headers().unwrap().len(), 1);
    assert_eq!(copy.get_options().len(), 1);
    assert_eq!(copy.get_response_errno(), Some(7));
    // The multipart payload is single-use and stays on the original.
    assert!(copy.multipart_form_data.is_none());
    assert!(request.multipart_form_data.is_some());
}
