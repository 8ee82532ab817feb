//! The client: an endpoint, and the HTTP request that carries a query to it.

use vstd::prelude::*;
use crate::error::Failure;
use crate::json::{encode_request, request_encodable, request_text};
use crate::request::GraphQLQuery;

verus! {

/// The name of the one header that a request carries.
pub const CONTENT_TYPE: &'static str = "Content-Type";

/// The value of that header.
pub const APPLICATION_JSON: &'static str = "application/json";

/// A client for one endpoint.
#[derive(Debug, Clone, Copy)]
pub struct GraphQLClient<'a> {
    endpoint: &'a str,
}

/// An HTTP POST, ready to be sent: where it goes, its one header and its body.
#[derive(Debug, Clone)]
pub struct PostRequest {
    pub url: String,
    pub header_name: &'static str,
    pub header_value: &'static str,
    pub body: String,
}

impl<'a> View for GraphQLClient<'a> {
    type V = Seq<char>;

    /// A client is its endpoint.
    closed spec fn view(&self) -> Seq<char> {
        self.endpoint@
    }
}

impl<'a> GraphQLClient<'a> {
    /// A client for `endpoint`. The text is not examined: what is wrong with
    /// it shows when the request is sent.
    pub fn new(endpoint: &'a str) -> (client: Self)
        ensures
            client@ == endpoint@,
    {
        Self { endpoint }
    }

    /// The endpoint that the client was made for.
    pub fn endpoint(&self) -> (endpoint: &'a str)
        ensures
            endpoint@ == self@,
    {
        self.endpoint
    }

    /// The POST that carries `query` to the endpoint: the header says that
    /// the body is JSON, and the body is the request written as JSON.
    pub fn post(&self, query: &GraphQLQuery<'_>) -> (r: Result<PostRequest, Failure>)
        ensures
            match r {
                Ok(post) => {
                    &&& request_encodable(query@)
                    &&& post.url@ == self@
                    &&& post.header_name@ == CONTENT_TYPE@
                    &&& post.header_value@ == APPLICATION_JSON@
                    &&& post.body@ == request_text(query@)
                },
                Err(e) => !request_encodable(query@) && e is Serialization,
            },
    {
        let body = encode_request(query)?;
        Ok(
            PostRequest {
                url: String::from_str(self.endpoint),
                header_name: CONTENT_TYPE,
                header_value: APPLICATION_JSON,
                body,
            },
        )
    }
}

} // verus!
