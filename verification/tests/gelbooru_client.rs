use vstd::map::Map;
use vstd::seq::Seq;
use picdl_rs::gelbooru::error::GelbooruError;
use picdl_rs::gelbooru::{Attributes, Gelbooru, Post, Rating, Response};
use picdl_rs::http::client::{Headers, HttpClient, Query, TransportError};
use picdl_rs::json::JsonError;

/// A transport that answers every request with a canned body.
struct Stub {
    body: String,
}

impl HttpClient for Stub {
    fn get_model(
        &self,
        _url: Seq<char>,
        _headers: Map<String, String>,
        _payload: Map<String, String>,
    ) -> Result<Seq<char>, Seq<char>> {
        unreachable!()
    }

    fn post_model(
        &self,
        _url: Seq<char>,
        _headers: Map<String, String>,
        _payload: Map<String, String>,
    ) -> Result<Seq<char>, Seq<char>> {
        unreachable!()
    }

    fn get(
        &self,
        _url: String,
        _headers: &Headers,
        _payload: &Query,
    ) -> Result<String, TransportError> {
        Ok(self.body.clone())
    }

    fn post(
        &self,
        _url: String,
        _headers: &Headers,
        _payload: &Query,
    ) -> Result<String, TransportError> {
        Ok(self.body.clone())
    }
}

fn one_post_body(rating: &str) -> String {
    let mut body = String::from(
        "{\"@attributes\":{\"limit\":1,\"offset\":0,\"count\":1},\"post\":[{\
         \"id\":1,\"created_at\":\"x\",\"score\":0,\"width\":100,\"height\":50,\
         \"md5\":\"abc\",\"directory\":\"d\",\"image\":\"i.png\",\"rating\":\"",
    );
    body.push_str(rating);
    body.push_str(
        "\",\"source\":\"s\",\"change\":5,\"owner\":\"o\",\"creator_id\":2,\
         \"parent_id\":0,\"sample\":0,\"preview_height\":10,\"preview_width\":20,\
         \"tags\":\"foo\",\"title\":\"t\",\"has_notes\":\"false\",\"has_comments\":\"false\",\
         \"file_url\":\"f\",\"preview_url\":\"p\",\"sample_url\":\"su\",\"sample_height\":5,\
         \"sample_width\":6,\"status\":\"active\",\"post_locked\":0,\"has_children\":\"false\"}]}",
    );
    body
}

fn sample_post() -> Post {
    Post {
        id: 1,
        created_at: String::from("x"),
        score: 0,
        width: 100,
        height: 50,
        md5: String::from("abc"),
        directory: String::from("d"),
        image: String::from("i.png"),
        rating: Rating::General,
        source: String::from("s"),
        change: Some(5),
        owner: String::from("o"),
        creator_id: 2,
        parent_id: 0,
        sample: 0,
        preview_height: 10,
        preview_width: 20,
        tags: String::from("foo"),
        title: String::from("t"),
        has_notes: String::from("false"),
        has_comments: String::from("false"),
        file_url: String::from("f"),
        preview_url: String::from("p"),
        sample_url: String::from("su"),
        sample_height: 5,
        sample_width: 6,
        status: String::from("active"),
        post_locked: 0,
        has_children: String::from("false"),
    }
}

#[test]
fn end_to_end_fetch_parses_one_general_post() {
    let client = Gelbooru::new(Stub {
        body: one_post_body("general"),
    });
    let response = client.fetch("foo", 1, 0, 0).expect("fetch succeeds");
    assert_eq!(response.attributes.limit, 1);
    assert_eq!(response.attributes.offset, 0);
    assert_eq!(response.attributes.count, 1);
    assert_eq!(response.post.len(), 1);
    assert_eq!(response.post[0], sample_post());
    assert!(matches!(response.post[0].rating, Rating::General));
}

#[test]
fn invalid_rating_is_a_deserialization_error() {
    let client = Gelbooru::new(Stub {
        body: one_post_body("invalid_value"),
    });
    let result = client.fetch("foo", 1, 0, 0);
    assert_eq!(
        result,
        Err(GelbooruError::SerdeError(JsonError::Schema))
    );
}

#[test]
fn malformed_body_is_a_deserialization_error() {
    let client = Gelbooru::new(Stub {
        body: String::from("<html>not json</html>"),
    });
    let result = client.fetch("foo", 1, 0, 0);
    assert_eq!(
        result,
        Err(GelbooruError::SerdeError(JsonError::NotJson))
    );
}

#[test]
fn missing_field_is_a_deserialization_error() {
    let client = Gelbooru::new(Stub {
        body: String::from("{\"post\":[]}"),
    });
    let result = client.fetch("foo", 1, 0, 0);
    assert_eq!(
        result,
        Err(GelbooruError::SerdeError(JsonError::Schema))
    );
}

#[test]
fn rating_parses_exactly_the_four_values() {
    assert_eq!(Rating::parse(&String::from("general")), Some(Rating::General));
    assert_eq!(Rating::parse(&String::from("sensitive")), Some(Rating::Sensitive));
    assert_eq!(Rating::parse(&String::from("explicit")), Some(Rating::Explicit));
    assert_eq!(
        Rating::parse(&String::from("questionable")),
        Some(Rating::Questionable)
    );
    assert_eq!(Rating::parse(&String::from("General")), None);
    assert_eq!(Rating::parse(&String::from("")), None);
    assert_eq!(Rating::as_str(Rating::Explicit), "explicit");
}

#[test]
fn response_round_trips_through_json() {
    let response = Response {
        attributes: Attributes {
            limit: 1,
            offset: 0,
            count: 1,
        },
        post: vec![sample_post()],
    };
    let document = response.to_json();
    let back = Response::from_json(&document).expect("serialized response parses");
    assert_eq!(back, response);
}

#[test]
fn post_round_trips_with_absent_change() {
    let mut post = sample_post();
    post.change = None;
    let document = post.to_json();
    let back = Post::from_json(&document).expect("serialized post parses");
    assert_eq!(back, post);
}

#[test]
fn fetch_parses_a_sensitive_post_from_the_wire() {
    let client = Gelbooru::new(Stub {
        body: one_post_body("sensitive"),
    });
    let response = client.fetch("foo", 1, 0, 0).expect("fetch succeeds");
    let mut expected = sample_post();
    expected.rating = Rating::Sensitive;
    assert_eq!(response.post[0], expected);
}
