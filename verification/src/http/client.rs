use std::collections::HashMap;
use vstd::prelude::*;

verus! {

/// Mapping from header names to values; keys unique, order irrelevant.
pub type Headers = HashMap<String, String>;

/// Mapping from query-parameter names to values; keys unique, order
/// irrelevant.
pub type Query = HashMap<String, String>;

/// A failure of the underlying transport, carried as the message the
/// transport gave for it.
#[derive(Debug, Clone, PartialEq, Eq)]
pub struct TransportError {
    pub message: String,
}

impl View for TransportError {
    type V = Seq<char>;

    open spec fn view(&self) -> Seq<char> {
        self.message@
    }
}

/// The capability a network transport offers: one GET and one POST, each
/// returning the full response body text or a transport failure.
///
/// `get_model` and `post_model` say, per implementation, what one exchange
/// returns for a given request; the executable methods are bound to them, so
/// a caller's contract can speak about the exact request that was issued.
pub trait HttpClient: Sized {
    /// What a GET of this transport answers to the given request: the body
    /// text, or the message of the failure.
    spec fn get_model(
        &self,
        url: Seq<char>,
        headers: Map<String, String>,
        payload: Map<String, String>,
    ) -> Result<Seq<char>, Seq<char>>;

    /// What a POST of this transport answers to the given request.
    spec fn post_model(
        &self,
        url: Seq<char>,
        headers: Map<String, String>,
        payload: Map<String, String>,
    ) -> Result<Seq<char>, Seq<char>>;

    /// Sends a GET request.
    fn get(&self, url: String, headers: &Headers, payload: &Query) -> (r: Result<
        String,
        TransportError,
    >)
        ensures
            match (r, self.get_model(url@, headers@, payload@)) {
                (Ok(body), Ok(m)) => body@ == m,
                (Err(e), Err(m)) => e@ == m,
                _ => false,
            },
    ;

    /// Sends a POST request.
    fn post(&self, url: String, headers: &Headers, payload: &Query) -> (r: Result<
        String,
        TransportError,
    >)
        ensures
            match (r, self.post_model(url@, headers@, payload@)) {
                (Ok(body), Ok(m)) => body@ == m,
                (Err(e), Err(m)) => e@ == m,
                _ => false,
            },
    ;
}

} // verus!
