use microservice::domain::NewMessage;
use microservice::htmlenc::render_page;
use microservice::jsonenc::{error_payload, timestamp_payload};
use microservice::response::{
    make_error_response, make_get_response, make_not_found_response, make_post_response,
    ContentKind,
};
use microservice::router::{route, Route};
use microservice::service::handle_request;
use microservice::store::{fetch_messages, write_to_db};

const PAGE_HEADER: &str = "<head><title>microservice</title><style>body { font-family: monospace }</style></head><body><ul>";
const PAGE_FOOTER: &str = "</ul></body>";

#[test]
fn routing_table() {
    assert_eq!(route("POST", "/"), Route::Submit);
    assert_eq!(route("GET", "/"), Route::List);
    assert_eq!(route("DELETE", "/"), Route::NotFound);
    assert_eq!(route("POST", "/x"), Route::NotFound);
    assert_eq!(route("GET", ""), Route::NotFound);
    assert_eq!(route("get", "/"), Route::NotFound);
}

#[test]
fn render_page_empty() {
    let page = render_page(Vec::new());
    assert_eq!(page, format!("{}{}", PAGE_HEADER, PAGE_FOOTER));
}

#[test]
fn render_page_escapes_markup() {
    let page = render_page(vec![NewMessage {
        username: "a<b".to_string(),
        message: "x&y\"z".to_string(),
    }]);
    let expected = format!(
        "{}<li>a&lt;b x&amp;y&quot;z</li>{}",
        PAGE_HEADER, PAGE_FOOTER
    );
    assert_eq!(page, expected);
}

#[test]
fn render_page_one_item_per_message() {
    let page = render_page(vec![
        NewMessage {
            username: "u1".to_string(),
            message: "m1".to_string(),
        },
        NewMessage {
            username: "u2".to_string(),
            message: "m2".to_string(),
        },
    ]);
    assert_eq!(page.matches("<li>").count(), 2);
    assert!(page.contains("<li>u1 m1</li><li>u2 m2</li>"));
}

#[test]
fn timestamp_payload_exact() {
    assert_eq!(timestamp_payload(1625247600), "{\"timestamp\":1625247600}");
    assert_eq!(timestamp_payload(-3), "{\"timestamp\":-3}");
}

#[test]
fn error_payload_escapes_json() {
    assert_eq!(
        error_payload("bad \"x\" \\ input"),
        "{\"error\":\"bad \\\"x\\\" \\\\ input\"}"
    );
    assert_eq!(error_payload("plain"), "{\"error\":\"plain\"}");
}

#[test]
fn make_error_response_shape() {
    let r = make_error_response("boom");
    assert_eq!(r.status, 500);
    assert_eq!(r.content_type, ContentKind::Json);
    assert_eq!(r.body, "{\"error\":\"boom\"}");
}

#[test]
fn make_post_response_ok_and_err() {
    let ok = make_post_response(Ok(7));
    assert_eq!(ok.status, 200);
    assert_eq!(ok.content_type, ContentKind::Json);
    assert_eq!(ok.body, "{\"timestamp\":7}");
    let err = make_post_response(Err("nope".to_string()));
    assert_eq!(err.status, 500);
    assert_eq!(err.content_type, ContentKind::Json);
    assert_eq!(err.body, "{\"error\":\"nope\"}");
}

#[test]
fn make_get_response_ok_and_err() {
    let ok = make_get_response(Some(Vec::new()));
    assert_eq!(ok.status, 200);
    assert_eq!(ok.content_type, ContentKind::Html);
    assert_eq!(ok.body, format!("{}{}", PAGE_HEADER, PAGE_FOOTER));
    let err = make_get_response(None);
    assert_eq!(err.status, 500);
    assert_eq!(err.content_type, ContentKind::Unspecified);
    assert_eq!(err.body, "");
}

#[test]
fn make_not_found_response_shape() {
    let r = make_not_found_response();
    assert_eq!(r.status, 404);
    assert_eq!(r.content_type, ContentKind::PlainText);
    assert_eq!(r.body, "Not Found");
}

#[test]
fn store_stubs() {
    let range = microservice::domain::TimeRange {
        before: None,
        after: Some(0),
    };
    assert_eq!(write_to_db(NewMessage {
        username: "u".to_string(),
        message: "m".to_string(),
    }), Ok(1625247600));
    let messages = fetch_messages(range).unwrap();
    assert_eq!(messages.len(), 2);
    assert_eq!(messages[0].username, "user1");
    assert_eq!(messages[0].message, "Hello!");
    assert_eq!(messages[1].username, "user2");
    assert_eq!(messages[1].message, "Hi there!");
}

#[test]
fn post_with_full_form_returns_timestamp_json() {
    let r = handle_request("POST", "/", None, b"username=alice&message=hi");
    assert_eq!(r.status, 200);
    assert_eq!(r.content_type, ContentKind::Json);
    assert_eq!(r.body, "{\"timestamp\":1625247600}");
}

#[test]
fn post_without_username_returns_json_error() {
    let r = handle_request("POST", "/", None, b"message=hi");
    assert_eq!(r.status, 500);
    assert_eq!(r.content_type, ContentKind::Json);
    assert_eq!(r.body, "{\"error\":\"Invalid form data\"}");
    assert!(r.body.contains("Invalid"));
}

#[test]
fn get_without_query_lists_stored_messages() {
    let r = handle_request("GET", "/", None, b"");
    assert_eq!(r.status, 200);
    assert_eq!(r.content_type, ContentKind::Html);
    assert_eq!(r.body.matches("<li>").count(), 2);
    assert!(r.body.contains("<li>user1 Hello!</li>"));
    assert!(r.body.contains("<li>user2 Hi there!</li>"));
}

#[test]
fn get_with_bad_before_returns_json_error_naming_field() {
    let r = handle_request("GET", "/", Some("before=abc"), b"");
    assert_eq!(r.status, 500);
    assert_eq!(r.content_type, ContentKind::Json);
    assert_eq!(
        r.body,
        "{\"error\":\"Error parsing 'before': invalid digit found in string\"}"
    );
    assert!(r.body.contains("before"));
}

#[test]
fn get_with_good_query_lists_messages() {
    let r = handle_request("GET", "/", Some("before=10&after=1"), b"");
    assert_eq!(r.status, 200);
    assert_eq!(r.content_type, ContentKind::Html);
}

#[test]
fn delete_returns_not_found() {
    let r = handle_request("DELETE", "/", None, b"");
    assert_eq!(r.status, 404);
    assert_eq!(r.content_type, ContentKind::PlainText);
    assert_eq!(r.body, "Not Found");
}
