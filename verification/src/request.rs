//! Operations and the GraphQL requests they stand for.

use vstd::prelude::*;
use crate::documents::{LOGIN_QUERY, MUTATIONS_QUERY, QUERIES_QUERY};

verus! {

/// What the user asked the client to do.
#[derive(Debug, Clone)]
pub enum Query {
    /// Log in to the bookmarks server.
    Login { username: String, password: String },
    /// List the queries that the server offers.
    QueryType,
    /// List the mutations that the server offers.
    MutationType,
}

/// The variables of the `Login` mutation.
#[derive(Debug, Clone, Copy)]
pub struct Auth<'a> {
    pub username: &'a str,
    pub password: &'a str,
    pub remember: bool,
}

/// A GraphQL request: a document and, for some documents, its variables.
#[derive(Debug, Clone, Copy)]
pub struct GraphQLQuery<'a> {
    pub query: &'a str,
    pub variables: Option<Auth<'a>>,
}

/// The mathematical value of a [`Query`].
pub enum QueryView {
    Login { username: Seq<char>, password: Seq<char> },
    QueryType,
    MutationType,
}

/// The mathematical value of an [`Auth`].
pub struct AuthView {
    pub username: Seq<char>,
    pub password: Seq<char>,
    pub remember: bool,
}

/// The mathematical value of a [`GraphQLQuery`].
pub struct GraphQLQueryView {
    pub query: Seq<char>,
    pub variables: Option<AuthView>,
}

impl View for Query {
    type V = QueryView;

    open spec fn view(&self) -> QueryView {
        match self {
            Query::Login { username, password } => QueryView::Login {
                username: username@,
                password: password@,
            },
            Query::QueryType => QueryView::QueryType,
            Query::MutationType => QueryView::MutationType,
        }
    }
}

impl<'a> View for Auth<'a> {
    type V = AuthView;

    open spec fn view(&self) -> AuthView {
        AuthView { username: self.username@, password: self.password@, remember: self.remember }
    }
}

impl<'a> View for GraphQLQuery<'a> {
    type V = GraphQLQueryView;

    open spec fn view(&self) -> GraphQLQueryView {
        GraphQLQueryView {
            query: self.query@,
            variables: match self.variables {
                Some(auth) => Some(auth@),
                None => None,
            },
        }
    }
}

/// The request that an operation stands for: its fixed document, and
/// variables for `Login` alone, with `remember` always off.
pub open spec fn request_of(op: QueryView) -> GraphQLQueryView {
    match op {
        QueryView::Login { username, password } => GraphQLQueryView {
            query: LOGIN_QUERY@,
            variables: Some(AuthView { username, password, remember: false }),
        },
        QueryView::QueryType => GraphQLQueryView { query: QUERIES_QUERY@, variables: None },
        QueryView::MutationType => GraphQLQueryView { query: MUTATIONS_QUERY@, variables: None },
    }
}

impl Query {
    /// Builds the request for this operation. The request borrows the user
    /// name and the password from the operation.
    pub fn request(&self) -> (req: GraphQLQuery<'_>)
        ensures
            req@ == request_of(self@),
    {
        match self {
            Query::Login { username, password } => GraphQLQuery {
                query: LOGIN_QUERY,
                variables: Some(
                    Auth { username: username.as_str(), password: password.as_str(), remember: false },
                ),
            },
            Query::QueryType => GraphQLQuery { query: QUERIES_QUERY, variables: None },
            Query::MutationType => GraphQLQuery { query: MUTATIONS_QUERY, variables: None },
        }
    }
}

/// A request has variables exactly when its operation is `Login`, and then
/// they are the operation's user name and password with `remember` off.
pub proof fn lemma_variables_only_for_login(op: QueryView)
    ensures
        request_of(op).variables is Some <==> op is Login,
        op matches QueryView::Login { username, password } ==> request_of(op).variables == Some(
            AuthView { username, password, remember: false },
        ),
{
}

} // verus!
