use super::client::{Headers, HttpClient, Query, TransportError};
use vstd::prelude::*;
use vstd::string::StringExecFns;

verus! {

/// A test transport: it answers every request with a fixed transport error
/// and performs no network work at all.
#[derive(Debug, Clone, Copy)]
pub struct TestClient {}

impl Default for TestClient {
    fn default() -> (r: Self)
        ensures
            r == (TestClient {  }),
    {
        TestClient {  }
    }
}

/// The sentinel message every request to the test transport fails with.
pub open spec fn test_client_message() -> Seq<char> {
    "Using a test HTTP client"@
}

impl HttpClient for TestClient {
    open spec fn get_model(
        &self,
        url: Seq<char>,
        headers: Map<String, String>,
        payload: Map<String, String>,
    ) -> Result<Seq<char>, Seq<char>> {
        Err(test_client_message())
    }

    open spec fn post_model(
        &self,
        url: Seq<char>,
        headers: Map<String, String>,
        payload: Map<String, String>,
    ) -> Result<Seq<char>, Seq<char>> {
        Err(test_client_message())
    }

    fn get(&self, url: String, headers: &Headers, payload: &Query) -> Result<
        String,
        TransportError,
    > {
        Err(TransportError { message: String::from_str("Using a test HTTP client") })
    }

    fn post(&self, url: String, headers: &Headers, payload: &Query) -> Result<
        String,
        TransportError,
    > {
        Err(TransportError { message: String::from_str("Using a test HTTP client") })
    }
}

/// The test transport answers every request, GET or POST, whatever the URL,
/// headers and query, with the transport error carrying the sentinel message:
/// it never produces a body.
pub proof fn lemma_test_client_always_fails(
    c: TestClient,
    url: Seq<char>,
    headers: Map<String, String>,
    payload: Map<String, String>,
)
    ensures
        c.get_model(url, headers, payload) == Err::<Seq<char>, Seq<char>>(test_client_message()),
        c.post_model(url, headers, payload) == Err::<Seq<char>, Seq<char>>(test_client_message()),
{
}

} // verus!
