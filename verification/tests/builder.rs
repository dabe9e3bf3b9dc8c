use asynchttp::client::check_worker_count;
use asynchttp::errors::HttpError;
use asynchttp::request::RequestBuilder;
use asynchttp::verb::{parse_verb, Verb};

#[test]
fn worker_count_must_be_positive() {
    assert_eq!(check_worker_count(0), Err(HttpError::ConfigError));
    assert_eq!(check_worker_count(-3), Err(HttpError::ConfigError));
    assert_eq!(check_worker_count(4), Ok(4));
}

#[test]
fn parse_verb_matches_ignoring_ascii_case() {
    assert_eq!(parse_verb("get"), Ok(Verb::Get));
    assert_eq!(parse_verb("GET"), Ok(Verb::Get));
    assert_eq!(parse_verb("GeT"), Ok(Verb::Get));
    assert_eq!(parse_verb("Post"), Ok(Verb::Post));
    assert_eq!(parse_verb("pOST"), Ok(Verb::Post));
    assert_eq!(parse_verb("put"), Ok(Verb::Put));
    assert_eq!(parse_verb("PUT"), Ok(Verb::Put));
    assert_eq!(parse_verb("Delete"), Ok(Verb::Delete));
    assert_eq!(parse_verb("DELETE"), Ok(Verb::Delete));
    assert_eq!(parse_verb("patch"), Err(HttpError::UnsupportedVerbError));
    assert_eq!(parse_verb("head"), Err(HttpError::UnsupportedVerbError));
    assert_eq!(parse_verb(""), Err(HttpError::UnsupportedVerbError));
    assert_eq!(parse_verb("gets"), Err(HttpError::UnsupportedVerbError));
    assert_eq!(parse_verb("ge t"), Err(HttpError::UnsupportedVerbError));
}

#[test]
fn fresh_builder_defaults_to_get() {
    let mut b = RequestBuilder::from_client(0i32, String::from("http://example.test/"));
    let (client, spec) = b.send_request().unwrap();
    assert_eq!(client, 0i32);
    assert_eq!(spec.url, "http://example.test/");
    assert_eq!(spec.verb, Verb::Get);
    assert!(spec.headers.is_empty());
    assert!(spec.body.is_empty());
}

#[test]
fn set_method_patch_fails_synchronously_and_changes_nothing() {
    let mut b = RequestBuilder::from_client(0i32, String::from("http://example.test/"));
    assert_eq!(b.set_method("patch"), Err(HttpError::UnsupportedVerbError));
    let (_, spec) = b.send_request().unwrap();
    assert_eq!(spec.verb, Verb::Get);
    assert!(spec.headers.is_empty());
    assert!(spec.body.is_empty());
}

#[test]
fn set_method_takes_the_last_accepted_verb() {
    let mut b = RequestBuilder::from_client(0i32, String::from("http://example.test/"));
    assert_eq!(b.set_method("POST"), Ok(()));
    assert_eq!(b.set_method("pUt"), Ok(()));
    assert_eq!(b.set_method("trace"), Err(HttpError::UnsupportedVerbError));
    let (_, spec) = b.send_request().unwrap();
    assert_eq!(spec.verb, Verb::Put);
}

#[test]
fn builder_rejects_use_after_send() {
    let mut b = RequestBuilder::from_client(1i32, String::from("http://example.test/"));
    assert!(b.send_request().is_ok());
    assert_eq!(b.set_method("get"), Err(HttpError::UseAfterSendError));
    assert_eq!(
        b.set_header(String::from("Accept"), String::from("text/plain")),
        Err(HttpError::UseAfterSendError)
    );
    assert_eq!(b.set_body_raw(vec![1]), Err(HttpError::UseAfterSendError));
    assert!(matches!(b.send_request(), Err(HttpError::UseAfterSendError)));
}

#[test]
fn default_builder_behaves_as_consumed() {
    let mut b: RequestBuilder<i32> = Default::default();
    assert_eq!(b.set_method("get"), Err(HttpError::UseAfterSendError));
    assert!(matches!(b.send_request(), Err(HttpError::UseAfterSendError)));
}

#[test]
fn header_upsert_last_write_wins() {
    let mut b = RequestBuilder::from_client(0i32, String::from("http://example.test/"));
    b.set_header(String::from("Accept"), String::from("text/plain")).unwrap();
    b.set_header(String::from("X-One"), String::from("1")).unwrap();
    b.set_header(String::from("Accept"), String::from("application/json")).unwrap();
    let (_, spec) = b.send_request().unwrap();
    assert_eq!(spec.headers.len(), 2);
    let accept: Vec<&(String, String)> =
        spec.headers.iter().filter(|p| p.0 == "Accept").collect();
    assert_eq!(accept.len(), 1);
    assert_eq!(accept[0].1, "application/json");
    let one: Vec<&(String, String)> = spec.headers.iter().filter(|p| p.0 == "X-One").collect();
    assert_eq!(one.len(), 1);
    assert_eq!(one[0].1, "1");
}

#[test]
fn set_body_raw_replaces_the_whole_body() {
    let mut b = RequestBuilder::from_client(0i32, String::from("http://example.test/"));
    b.set_body_raw(vec![1, 2, 3]).unwrap();
    b.set_body_raw(vec![9]).unwrap();
    let (_, spec) = b.send_request().unwrap();
    assert_eq!(spec.body, vec![9]);
}

#[test]
fn builders_from_same_client_are_independent() {
    let client = 5i32;
    let mut a = RequestBuilder::from_client(client, String::from("http://a.test/"));
    let mut b = RequestBuilder::from_client(client, String::from("http://b.test/"));
    a.set_header(String::from("X-A"), String::from("1")).unwrap();
    a.set_body_raw(vec![1, 2]).unwrap();
    b.set_method("post").unwrap();
    b.set_header(String::from("X-B"), String::from("2")).unwrap();
    let (_, sa) = a.send_request().unwrap();
    b.set_header(String::from("X-B"), String::from("3")).unwrap();
    let (_, sb) = b.send_request().unwrap();
    assert_eq!(sa.url, "http://a.test/");
    assert_eq!(sa.verb, Verb::Get);
    assert_eq!(sa.headers, vec![(String::from("X-A"), String::from("1"))]);
    assert_eq!(sa.body, vec![1, 2]);
    assert_eq!(sb.url, "http://b.test/");
    assert_eq!(sb.verb, Verb::Post);
    assert_eq!(sb.headers, vec![(String::from("X-B"), String::from("3"))]);
    assert!(sb.body.is_empty());
}
