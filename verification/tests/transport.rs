use vstd::map::Map;
use vstd::seq::Seq;
use std::cell::RefCell;

use picdl_rs::gelbooru::Gelbooru;
use picdl_rs::gelbooru::error::GelbooruError;
use picdl_rs::http::client::{Headers, HttpClient, Query, TransportError};
use picdl_rs::http::test_client::TestClient;

/// A transport that records every requested URL and answers with a canned
/// body, so tests can check request construction without any network.
struct Recorder {
    urls: RefCell<Vec<String>>,
    body: String,
}

impl Recorder {
    fn new(body: &str) -> Recorder {
        Recorder {
            urls: RefCell::new(Vec::new()),
            body: String::from(body),
        }
    }
}

impl HttpClient for Recorder {
    fn get_model(
        &self,
        _url: Seq<char>,
        _headers: Map<String, String>,
        _payload: Map<String, String>,
    ) -> Result<Seq<char>, Seq<char>> {
        unreachable!()
    }

    fn post_model(
        &self,
        _url: Seq<char>,
        _headers: Map<String, String>,
        _payload: Map<String, String>,
    ) -> Result<Seq<char>, Seq<char>> {
        unreachable!()
    }

    fn get(
        &self,
        url: String,
        _headers: &Headers,
        _payload: &Query,
    ) -> Result<String, TransportError> {
        self.urls.borrow_mut().push(url);
        Ok(self.body.clone())
    }

    fn post(
        &self,
        url: String,
        _headers: &Headers,
        _payload: &Query,
    ) -> Result<String, TransportError> {
        self.urls.borrow_mut().push(url);
        Ok(self.body.clone())
    }
}

#[test]
fn test_client_always_returns_transport_error() {
    let client = TestClient::default();
    let headers = Headers::new();
    let payload = Query::new();
    let get = client.get(String::from("http://unused.invalid"), &headers, &payload);
    let post = client.post(String::from("http://unused.invalid"), &headers, &payload);
    assert_eq!(
        get,
        Err(TransportError {
            message: String::from("Using a test HTTP client")
        })
    );
    assert_eq!(
        post,
        Err(TransportError {
            message: String::from("Using a test HTTP client")
        })
    );
}

#[test]
fn test_client_fetch_surfaces_transport_error() {
    let client = Gelbooru::new(TestClient::default());
    let result = client.fetch("omori", 1, 1, 0);
    match result {
        Err(GelbooruError::HttpError(e)) => {
            assert_eq!(e.message, String::from("Using a test HTTP client"));
        }
        other => panic!("expected a transport error, got {:?}", other),
    }
}

#[test]
fn fetch_requests_the_documented_url() {
    let transport = Recorder::new("not json");
    let client = Gelbooru::new(transport);
    let _ = client.fetch("foo", 1, 0, 0);
    let urls = client.http.urls.borrow();
    assert_eq!(urls.len(), 1);
    assert_eq!(
        urls[0],
        "https://gelbooru.com/index.php?page=dapi&s=post&q=index&tags=foo&limit=1&pid=0&cid=0&json=1"
    );
}

#[test]
fn fetch_by_tag_requests_limit_100_cid_0() {
    let transport = Recorder::new("not json");
    let client = Gelbooru::new(transport);
    let by_tag = client.fetch_by_tag("a_tag", 3);
    let full = client.fetch("a_tag", 100, 3, 0);
    assert_eq!(by_tag, full);
    let urls = client.http.urls.borrow();
    assert_eq!(urls.len(), 2);
    assert_eq!(urls[0], urls[1]);
    assert!(urls[0].contains("limit=100"));
    assert!(urls[0].contains("cid=0"));
}

#[test]
fn url_builders_render_negative_numbers() {
    let url = picdl_rs::gelbooru::gelbooru_request_url("t", -1, -2, -3);
    assert_eq!(
        url.as_str(),
        "https://gelbooru.com/index.php?page=dapi&s=post&q=index&tags=t&limit=-1&pid=-2&cid=-3&json=1"
    );
    let boosty = picdl_rs::boosty::boosty_request_url("blog", 25);
    assert_eq!(boosty.as_str(), "https://api.boosty.to/v1/blog/blog/post/?limit=25");
}
