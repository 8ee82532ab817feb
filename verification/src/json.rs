//! The request body: a JSON object written member by member.
//!
//! String literals, keys included, are encoded by `serde_json`. The framing of
//! an object (braces, colons and commas, with no white space) is written here.

use vstd::prelude::*;
use crate::documents::{LOGIN_QUERY, MUTATIONS_QUERY, QUERIES_QUERY};
use crate::error::Failure;
use crate::request::{request_of, Auth, AuthView, GraphQLQuery, GraphQLQueryView, QueryView};

verus! {

/// The error type of `serde_json`, carried through as an opaque value.
#[verifier::external_type_specification]
#[verifier::external_body]
pub struct ExJsonError(serde_json::Error);

/// What `serde_json::to_string` makes of a string: the JSON string literal
/// (the text between double quotes, escaped as JSON asks), or `None` where it
/// reports an error.
pub uninterp spec fn json_string(s: Seq<char>) -> Option<Seq<char>>;

/// Calls `serde_json::to_string` on a string slice. Trusted: the outcome
/// depends on the characters of `s` alone, so it is the named value
/// `json_string(s@)`: the text on success, `None` on an error. Neither
/// success nor anything about the text is claimed.
#[verifier::external_body]
fn quote(s: &str) -> (r: Result<String, serde_json::Error>)
    ensures
        match r {
            Ok(text) => json_string(s@) == Some(text@),
            Err(_) => json_string(s@) is None,
        },
{
    serde_json::to_string(s)
}

/// Formats a `serde_json::Error` with its `Debug` impl. Trusted: nothing is
/// claimed of the text.
#[verifier::external_body]
fn describe(e: &serde_json::Error) -> String {
    format!("{:?}", e)
}

/// The JSON string literal of `s`, where the encoder gives one.
pub open spec fn literal(s: Seq<char>) -> Seq<char> {
    json_string(s).unwrap()
}

/// One member of a JSON object: the JSON text of its key and the JSON text of
/// its value.
pub struct Member {
    pub key: Seq<char>,
    pub value: Seq<char>,
}

/// The text of an object up to its last member: the opening brace, then each
/// member as its key, a colon and its value, with a comma before every member
/// but the first.
pub open spec fn open_object_text(ms: Seq<Member>) -> Seq<char>
    decreases ms.len(),
{
    if ms.len() == 0 {
        seq!['{']
    } else if ms.len() == 1 {
        seq!['{'] + ms[0].key + seq![':'] + ms[0].value
    } else {
        open_object_text(ms.drop_last()) + seq![','] + ms.last().key + seq![':'] + ms.last().value
    }
}

/// The text of an object: its members between braces.
pub open spec fn object_text(ms: Seq<Member>) -> Seq<char> {
    open_object_text(ms) + seq!['}']
}

/// The JSON text of a boolean.
pub open spec fn bool_text(b: bool) -> Seq<char> {
    if b {
        seq!['t', 'r', 'u', 'e']
    } else {
        seq!['f', 'a', 'l', 's', 'e']
    }
}

/// The encoder accepts every string of the `variables` object.
pub open spec fn variables_encodable(a: AuthView) -> bool {
    &&& json_string("username"@) is Some
    &&& json_string(a.username) is Some
    &&& json_string("password"@) is Some
    &&& json_string(a.password) is Some
    &&& json_string("remember"@) is Some
}

/// The members of the `variables` object, in the order they are written.
pub open spec fn variables_members(a: AuthView) -> Seq<Member> {
    seq![
        Member { key: literal("username"@), value: literal(a.username) },
        Member { key: literal("password"@), value: literal(a.password) },
        Member { key: literal("remember"@), value: bool_text(a.remember) },
    ]
}

/// The encoder accepts every string of the request.
pub open spec fn request_encodable(q: GraphQLQueryView) -> bool {
    &&& json_string("query"@) is Some
    &&& json_string(q.query) is Some
    &&& q.variables matches Some(a) ==> json_string("variables"@) is Some && variables_encodable(a)
}

/// The members of the request object: `query`, and `variables` only where the
/// request has variables.
pub open spec fn request_members(q: GraphQLQueryView) -> Seq<Member> {
    match q.variables {
        Some(a) => seq![
            Member { key: literal("query"@), value: literal(q.query) },
            Member { key: literal("variables"@), value: object_text(variables_members(a)) },
        ],
        None => seq![Member { key: literal("query"@), value: literal(q.query) }],
    }
}

/// The body of the HTTP request that carries `q`.
pub open spec fn request_text(q: GraphQLQueryView) -> Seq<char> {
    object_text(request_members(q))
}

/// What writing the body of `q` returns: the body where the encoder accepts
/// every string of the request, and a serialization failure where it does not.
pub open spec fn encodes(q: GraphQLQueryView, r: Result<String, Failure>) -> bool {
    match r {
        Ok(body) => request_encodable(q) && body@ == request_text(q),
        Err(e) => !request_encodable(q) && e is Serialization,
    }
}

/// Encodes `s` as a JSON string literal.
pub fn encode_string(s: &str) -> (r: Result<String, Failure>)
    ensures
        match r {
            Ok(text) => json_string(s@) == Some(text@),
            Err(e) => json_string(s@) is None && e is Serialization,
        },
{
    match quote(s) {
        Ok(text) => Ok(text),
        Err(e) => Err(Failure::Serialization(describe(&e))),
    }
}

/// The JSON text of a boolean: `true` or `false`.
pub fn encode_bool(b: bool) -> (text: &'static str)
    ensures
        text@ == bool_text(b),
{
    proof {
        reveal_strlit("true");
        reveal_strlit("false");
    }
    if b {
        assert("true"@ =~= bool_text(true));
        "true"
    } else {
        assert("false"@ =~= bool_text(false));
        "false"
    }
}

/// A JSON object under construction.
pub struct ObjectWriter {
    text: String,
    empty: bool,
    members: Ghost<Seq<Member>>,
}

impl ObjectWriter {
    /// The members written so far.
    pub closed spec fn members(&self) -> Seq<Member> {
        self.members@
    }

    /// The text holds the opening brace and the members written so far.
    pub closed spec fn wf(&self) -> bool {
        &&& self.text@ == open_object_text(self.members@)
        &&& self.empty <==> self.members@.len() == 0
    }

    /// Starts an object with no members.
    pub fn new() -> (w: ObjectWriter)
        ensures
            w.wf(),
            w.members() == Seq::<Member>::empty(),
    {
        proof {
            reveal_strlit("{");
        }
        let text = String::from_str("{");
        assert(text@ =~= open_object_text(Seq::<Member>::empty()));
        ObjectWriter { text, empty: true, members: Ghost(Seq::empty()) }
    }

    /// Writes one more member, given the JSON text of its key and of its
    /// value. A comma goes before every member but the first.
    pub fn push(&mut self, key: &str, value: &str)
        requires
            old(self).wf(),
        ensures
            final(self).wf(),
            final(self).members() == old(self).members().push(Member { key: key@, value: value@ }),
    {
        proof {
            reveal_strlit(",");
            reveal_strlit(":");
        }
        let ghost before = self.members@;
        let ghost after = before.push(Member { key: key@, value: value@ });
        if !self.empty {
            self.text.append(",");
        }
        self.text.append(key);
        self.text.append(":");
        self.text.append(value);
        self.empty = false;
        self.members = Ghost(after);
        proof {
            assert(after.drop_last() =~= before);
            assert(after.last() == Member { key: key@, value: value@ });
            assert(before.len() == 0 ==> old(self).text@ =~= seq!['{']);
            assert(self.text@ =~= open_object_text(after));
        }
    }

    /// Closes the object and hands out its text.
    pub fn finish(self) -> (text: String)
        requires
            self.wf(),
        ensures
            text@ == object_text(self.members()),
    {
        proof {
            reveal_strlit("}");
        }
        let mut text = self.text;
        text.append("}");
        assert(text@ =~= object_text(self.members@));
        text
    }
}

/// Writes the `variables` object of a login request: the user name, the
/// password and the `remember` flag, in this order.
pub fn encode_variables(auth: &Auth<'_>) -> (r: Result<String, Failure>)
    ensures
        match r {
            Ok(text) => variables_encodable(auth@) && text@ == object_text(
                variables_members(auth@),
            ),
            Err(e) => !variables_encodable(auth@) && e is Serialization,
        },
{
    let username_key = encode_string("username")?;
    let username = encode_string(auth.username)?;
    let password_key = encode_string("password")?;
    let password = encode_string(auth.password)?;
    let remember_key = encode_string("remember")?;
    let mut w = ObjectWriter::new();
    w.push(username_key.as_str(), username.as_str());
    w.push(password_key.as_str(), password.as_str());
    w.push(remember_key.as_str(), encode_bool(auth.remember));
    assert(w.members() =~= variables_members(auth@));
    Ok(w.finish())
}

/// Writes the body of the HTTP request that carries `q`: an object with the
/// member `query` and, only where `q` has variables, the member `variables`.
pub fn encode_request(q: &GraphQLQuery<'_>) -> (r: Result<String, Failure>)
    ensures
        encodes(q@, r),
{
    let query_key = encode_string("query")?;
    let query = encode_string(q.query)?;
    let mut w = ObjectWriter::new();
    w.push(query_key.as_str(), query.as_str());
    match &q.variables {
        Some(auth) => {
            let variables_key = encode_string("variables")?;
            let variables = encode_variables(auth)?;
            w.push(variables_key.as_str(), variables.as_str());
            assert(w.members() =~= request_members(q@));
        },
        None => {
            assert(w.members() =~= request_members(q@));
        },
    }
    Ok(w.finish())
}

/// Writing the body is deterministic: two attempts on the same operation
/// succeed or fail together, and where they succeed they give the same text,
/// character for character.
pub proof fn lemma_body_is_deterministic(
    a: QueryView,
    b: QueryView,
    first: Result<String, Failure>,
    second: Result<String, Failure>,
)
    requires
        a == b,
        encodes(request_of(a), first),
        encodes(request_of(b), second),
    ensures
        first is Ok <==> second is Ok,
        first is Ok ==> first.unwrap()@ == second.unwrap()@,
{
}

/// The text of an object with two members.
proof fn lemma_two_members(a: Member, b: Member)
    ensures
        object_text(seq![a, b]) == seq!['{'] + a.key + seq![':'] + a.value + seq![','] + b.key
            + seq![':'] + b.value + seq!['}'],
{
    let ms = seq![a, b];
    assert(ms.drop_last() =~= seq![a]);
    assert(open_object_text(ms.drop_last()) == seq!['{'] + a.key + seq![':'] + a.value);
}

/// The text of an object with three members.
proof fn lemma_three_members(a: Member, b: Member, c: Member)
    ensures
        object_text(seq![a, b, c]) == seq!['{'] + a.key + seq![':'] + a.value + seq![','] + b.key
            + seq![':'] + b.value + seq![','] + c.key + seq![':'] + c.value + seq!['}'],
{
    let ms = seq![a, b, c];
    assert(ms.drop_last() =~= seq![a, b]);
    lemma_two_members(a, b);
    assert(seq![a, b].drop_last() =~= seq![a]);
    assert(open_object_text(seq![a]) == seq!['{'] + a.key + seq![':'] + a.value);
}

/// The `variables` object holds the user name, the password and the flag, in
/// this order, each under its key.
pub proof fn lemma_variables_text(a: AuthView)
    ensures
        object_text(variables_members(a)) == seq!['{'] + literal("username"@) + seq![':']
            + literal(a.username) + seq![','] + literal("password"@) + seq![':'] + literal(
            a.password,
        ) + seq![','] + literal("remember"@) + seq![':'] + bool_text(a.remember) + seq!['}'],
{
    let ms = variables_members(a);
    lemma_three_members(ms[0], ms[1], ms[2]);
    assert(ms =~= seq![ms[0], ms[1], ms[2]]);
}

/// The body of a login request, whatever the user name and the password
/// hold: the member `query` with the login document, then the member
/// `variables` with the user name, the password and `remember`, which is
/// `false`.
pub proof fn lemma_login_body(username: Seq<char>, password: Seq<char>)
    ensures
        request_members(request_of(QueryView::Login { username, password })).len() == 2,
        ({
            let variables = seq!['{'] + literal("username"@) + seq![':'] + literal(username)
                + seq![','] + literal("password"@) + seq![':'] + literal(password) + seq![',']
                + literal("remember"@) + seq![':'] + seq!['f', 'a', 'l', 's', 'e'] + seq!['}'];
            request_text(request_of(QueryView::Login { username, password })) == seq!['{']
                + literal("query"@) + seq![':'] + literal(LOGIN_QUERY@) + seq![','] + literal(
                "variables"@,
            ) + seq![':'] + variables + seq!['}']
        }),
{
    let q = request_of(QueryView::Login { username, password });
    let ms = request_members(q);
    lemma_two_members(ms[0], ms[1]);
    assert(ms =~= seq![ms[0], ms[1]]);
    lemma_variables_text(AuthView { username, password, remember: false });
}

/// The body of a request for the query fields or for the mutation fields
/// has one member, `query` with the operation's document, and nothing else:
/// no member `variables` is written.
pub proof fn lemma_introspection_body(op: QueryView)
    requires
        !(op is Login),
    ensures
        request_members(request_of(op)).len() == 1,
        request_text(request_of(op)) == seq!['{'] + literal("query"@) + seq![':'] + literal(
            request_of(op).query,
        ) + seq!['}'],
        op is QueryType ==> request_of(op).query == QUERIES_QUERY@,
        op is MutationType ==> request_of(op).query == MUTATIONS_QUERY@,
{
}

} // verus!
