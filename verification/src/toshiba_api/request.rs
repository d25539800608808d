use vstd::prelude::*;
use vstd::string::*;

verus! {

/// The HTTP method of a request.
#[derive(Debug, Clone, Copy, PartialEq, Eq, Structural)]
pub enum Method {
    Get,
    Post,
}

/// A named value: a query parameter, or a member of a JSON body.
#[derive(Debug, Clone, PartialEq, Eq)]
pub struct Field {
    pub name: String,
    pub value: String,
}

/// A request to the remote service, as plain values: what is sent, not how.
#[derive(Debug, Clone, PartialEq, Eq)]
pub struct Request {
    pub method: Method,
    pub url: String,
    /// The value of the `Authorization` header, where the request carries one.
    pub authorization: Option<String>,
    /// The query parameters, in the order in which they are written.
    pub query: Vec<Field>,
    /// The members of the JSON object that is the body; empty for no body.
    pub body: Vec<Field>,
}

/// A request as text and sequences.
pub struct RequestView {
    pub method: Method,
    pub url: Seq<char>,
    pub authorization: Option<Seq<char>>,
    pub query: Seq<(Seq<char>, Seq<char>)>,
    pub body: Seq<(Seq<char>, Seq<char>)>,
}

impl View for Field {
    type V = (Seq<char>, Seq<char>);

    open spec fn view(&self) -> (Seq<char>, Seq<char>) {
        (self.name@, self.value@)
    }
}

impl View for Request {
    type V = RequestView;

    open spec fn view(&self) -> RequestView {
        RequestView {
            method: self.method,
            url: self.url@,
            authorization: match self.authorization {
                Some(value) => Some(value@),
                None => None,
            },
            query: self.query@.map_values(|field: Field| field@),
            body: self.body@.map_values(|field: Field| field@),
        }
    }
}

/// The `Authorization` header value that presents an access token.
pub open spec fn bearer(access_token: Seq<char>) -> Seq<char> {
    "Bearer "@ + access_token
}

/// Builds the `Authorization` header value for an access token.
pub fn bearer_header(access_token: &str) -> (r: String)
    ensures
        r@ == bearer(access_token@),
{
    String::from_str("Bearer ").concat(access_token)
}

/// Builds a named value.
pub fn field(name: &str, value: &str) -> (r: Field)
    ensures
        r@ == (name@, value@),
{
    Field { name: String::from_str(name), value: String::from_str(value) }
}

/// The authenticated `GET` of `url` with one query parameter.
pub open spec fn authorized_get(
    url: Seq<char>,
    access_token: Seq<char>,
    name: Seq<char>,
    value: Seq<char>,
) -> RequestView {
    RequestView {
        method: Method::Get,
        url: url,
        authorization: Some(bearer(access_token)),
        query: seq![(name, value)],
        body: Seq::empty(),
    }
}

/// Builds the authenticated `GET` of `url` with one query parameter.
pub fn get_with_token(url: &str, access_token: &str, name: &str, value: &str) -> (r: Request)
    ensures
        r@ == authorized_get(url@, access_token@, name@, value@),
{
    let mut query: Vec<Field> = Vec::new();
    query.push(field(name, value));
    let request = Request {
        method: Method::Get,
        url: String::from_str(url),
        authorization: Some(bearer_header(access_token)),
        query: query,
        body: Vec::new(),
    };
    assert(request@.query =~= seq![(name@, value@)]);
    assert(request@.body =~= Seq::<(Seq<char>, Seq<char>)>::empty());
    request
}

} // verus!
