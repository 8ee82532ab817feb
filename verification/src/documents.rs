//! The three GraphQL documents that the client can send.

use vstd::prelude::*;

verus! {

/// Asks the server for the names of the fields of its root query type.
pub const QUERIES_QUERY: &'static str = "\
{
  __schema {
    queryType {
      fields {
        name
      }
    }
  }
}
";

/// Asks the server for the names of the fields of its root mutation type.
pub const MUTATIONS_QUERY: &'static str = "\
{
  __schema {
    mutationType {
      fields {
        name
      }
    }
  }
}
";

/// The `Login` mutation: it takes a user name, a password and the `remember`
/// flag, and asks for the access token.
pub const LOGIN_QUERY: &'static str = "\
mutation Login($username: String!, $password: String!, $remember: Boolean!) {
      login(username: $username, password: $password, remember: $remember) {
        accessToken
      }
    }
";

} // verus!
