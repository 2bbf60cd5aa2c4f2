use vstd::map::Map;
use vstd::seq::Seq;
use picdl_rs::boosty::types::{
    Count, CurrencyPrices, Data, PlayerUrls, Post, Reactions, Response, Teaser,
};
use picdl_rs::boosty::{Boosty, BoostyError};
use picdl_rs::http::client::{Headers, HttpClient, Query, TransportError};
use picdl_rs::http::test_client::TestClient;
use picdl_rs::json::JsonError;

/// A transport that answers every request with a canned body.
struct Stub {
    body: String,
}

impl HttpClient for Stub {
    fn get_model(
        &self,
        _url: Seq<char>,
        _headers: Map<String, String>,
        _payload: Map<String, String>,
    ) -> Result<Seq<char>, Seq<char>> {
        unreachable!()
    }

    fn post_model(
        &self,
        _url: Seq<char>,
        _headers: Map<String, String>,
        _payload: Map<String, String>,
    ) -> Result<Seq<char>, Seq<char>> {
        unreachable!()
    }

    fn get(
        &self,
        _url: String,
        _headers: &Headers,
        _payload: &Query,
    ) -> Result<String, TransportError> {
        Ok(self.body.clone())
    }

    fn post(
        &self,
        _url: String,
        _headers: &Headers,
        _payload: &Query,
    ) -> Result<String, TransportError> {
        Ok(self.body.clone())
    }
}

fn one_post_body() -> String {
    String::from(
        "{\"data\":[{\"createdAt\":100,\"updatedAt\":null,\"publishTime\":101,\
         \"count\":{\"likes\":1,\"reactions\":{\"angry\":0,\"heart\":2,\"fire\":0,\
         \"like\":3,\"dislike\":0,\"wonder\":0,\"laught\":0,\"sad\":0},\"comments\":4},\
         \"data\":[{\"type\":\"text\",\"content\":\"hello\",\
         \"playerUrls\":[{\"type\":\"hls\",\"url\":\"u\"}]}],\
         \"currencyPrices\":{\"RUB\":5.5,\"USD\":0.1},\
         \"teaser\":[{\"type\":\"image\",\"width\":10,\"height\":20,\
         \"rendition\":\"r\",\"url\":\"tu\",\"id\":\"tid\"}],\
         \"showViewsCounter\":true,\"price\":5,\"id\":\"pid\",\"donations\":7,\
         \"title\":\"T\"}]}",
    )
}

fn sample_post() -> Post {
    Post {
        created_at: 100,
        updated_at: None,
        publish_time: 101,
        count: Count {
            likes: 1,
            reactions: Reactions {
                angry: 0,
                heart: 2,
                fire: 0,
                like: 3,
                dislike: 0,
                wonder: 0,
                laught: 0,
                sad: 0,
            },
            comments: 4,
        },
        data: Some(vec![Data {
            content_type: String::from("text"),
            width: None,
            height: None,
            rendition: None,
            url: None,
            id: None,
            player_urls: Some(vec![PlayerUrls {
                content_type: String::from("hls"),
                url: String::from("u"),
            }]),
            content: Some(String::from("hello")),
        }]),
        currency_prices: CurrencyPrices {
            rub: String::from("5.5"),
            usd: String::from("0.1"),
        },
        teaser: vec![Teaser {
            content_type: String::from("image"),
            width: Some(10),
            height: Some(20),
            rendition: Some(String::from("r")),
            url: Some(String::from("tu")),
            id: Some(String::from("tid")),
        }],
        show_views_counter: true,
        price: 5,
        id: String::from("pid"),
        donations: 7,
        title: String::from("T"),
    }
}

#[test]
fn fetch_parses_a_full_post() {
    let client = Boosty::new(Stub {
        body: one_post_body(),
    });
    let response = client.fetch("boosty", 1).expect("fetch succeeds");
    assert_eq!(response.data.len(), 1);
    assert_eq!(response.data[0], sample_post());
    assert_eq!(response.data[0].title, String::from("T"));
    assert_eq!(response.data[0].currency_prices.rub, String::from("5.5"));
}

#[test]
fn boosty_malformed_body_is_a_deserialization_error() {
    let client = Boosty::new(Stub {
        body: String::from("]]not json"),
    });
    let result = client.fetch("boosty", 1);
    assert_eq!(result, Err(BoostyError::SerdeError(JsonError::NotJson)));
}

#[test]
fn boosty_schema_mismatch_is_a_deserialization_error() {
    let client = Boosty::new(Stub {
        body: String::from("{\"data\":[{\"createdAt\":\"not a number\"}]}"),
    });
    let result = client.fetch("boosty", 1);
    assert_eq!(result, Err(BoostyError::SerdeError(JsonError::Schema)));
}

#[test]
fn boosty_test_client_surfaces_transport_error() {
    let client = Boosty::new(TestClient::default());
    let result = client.fetch("boosty", 1);
    match result {
        Err(BoostyError::HttpError(e)) => {
            assert_eq!(e.message, String::from("Using a test HTTP client"));
        }
        other => panic!("expected a transport error, got {:?}", other),
    }
}

#[test]
fn boosty_parses_a_timestamp_beyond_the_signed_range() {
    let client = Boosty::new(Stub {
        body: String::from(
            "{\"data\":[{\"createdAt\":18446744073709551615,\"updatedAt\":null,\
             \"publishTime\":1,\"count\":{\"likes\":0,\"reactions\":{\"angry\":0,\
             \"heart\":0,\"fire\":0,\"like\":0,\"dislike\":0,\"wonder\":0,\
             \"laught\":0,\"sad\":0},\"comments\":0},\"data\":null,\
             \"currencyPrices\":{\"RUB\":0,\"USD\":0},\"teaser\":[],\
             \"showViewsCounter\":false,\"price\":0,\"id\":\"i\",\"donations\":0,\
             \"title\":\"t\"}]}",
        ),
    });
    let response = client.fetch("b", 1).expect("fetch succeeds");
    assert_eq!(response.data[0].created_at, 18446744073709551615u64);
    assert_eq!(response.data[0].updated_at, None);
    assert_eq!(response.data[0].data, None);
    assert_eq!(response.data[0].currency_prices.rub, String::from("0"));
}

#[test]
fn boosty_response_round_trips_through_json() {
    let response = Response {
        data: vec![sample_post()],
    };
    let document = response.to_json();
    let back = Response::from_json(&document).expect("serialized response parses");
    assert_eq!(back, response);
}

#[test]
fn boosty_post_round_trips_without_optional_blocks() {
    let mut post = sample_post();
    post.data = None;
    post.updated_at = Some(200);
    post.teaser = Vec::new();
    let document = post.to_json();
    let back = Post::from_json(&document).expect("serialized post parses");
    assert_eq!(back, post);
}
