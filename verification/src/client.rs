//! The requests a client asks a transport to send, and its reading of what
//! the transport brings back.

use vstd::prelude::*;
use vstd::string::*;

verus! {

/// The HTTP verbs that the endpoints use.
#[derive(Clone, Copy, Debug, PartialEq, Eq, Structural)]
pub enum Method {
    Get,
    Post,
    Put,
    Delete,
}

/// Whether a call wants the first page of results only, or every page.
#[derive(Clone, Copy, Debug, PartialEq, Eq, Structural)]
pub enum Paging {
    Single,
    All,
}

/// Why a call failed. Every failure ends the call that met it.
#[derive(Clone, Debug, PartialEq, Eq)]
pub enum Error {
    /// The connection could not be made or broke.
    Transport(String),
    /// The server answered with a status outside 200..=299.
    HttpStatus { status: u16, body: Vec<u8> },
    /// The response body does not have the expected shape.
    Decode(String),
    /// The request body could not be serialized.
    Encode(String),
}

/// One request, ready to be sent.
#[derive(Clone, Debug, PartialEq, Eq)]
pub struct Request {
    pub method: Method,
    /// The full URL: the client's base URL followed by path and query.
    pub url: String,
    /// The value of the `Authorization` header.
    pub authorization: String,
    /// The serialized body, if the call has one.
    pub body: Option<Vec<u8>>,
    pub paging: Paging,
}

/// A request as plain mathematical values.
pub struct RequestView {
    pub method: Method,
    pub url: Seq<char>,
    pub authorization: Seq<char>,
    pub body: Option<Seq<u8>>,
    pub paging: Paging,
}

/// The bytes of an optional body.
pub open spec fn body_view(body: Option<Vec<u8>>) -> Option<Seq<u8>> {
    match body {
        Some(bytes) => Some(bytes@),
        None => None,
    }
}

impl View for Request {
    type V = RequestView;

    open spec fn view(&self) -> RequestView {
        RequestView {
            method: self.method,
            url: self.url@,
            authorization: self.authorization@,
            body: body_view(self.body),
            paging: self.paging,
        }
    }
}

/// What a transport brought back: the status line's code and the body.
#[derive(Clone, Debug, PartialEq, Eq)]
pub struct Response {
    pub status: u16,
    pub body: Vec<u8>,
}

/// The status codes that mean success.
pub open spec fn is_success(status: u16) -> bool {
    200 <= status <= 299
}

/// The result of a call whose response is `response`: the body of a
/// successful response, and for any other status an error that carries the
/// status and the body.
pub open spec fn checked(response: Response) -> Result<Vec<u8>, Error> {
    if is_success(response.status) {
        Ok(response.body)
    } else {
        Err(Error::HttpStatus { status: response.status, body: response.body })
    }
}

/// The result of a call given what the transport reports: a response, or the
/// reason why none arrived.
pub open spec fn delivered(outcome: Result<Response, String>) -> Result<Vec<u8>, Error> {
    match outcome {
        Ok(response) => checked(response),
        Err(reason) => Err(Error::Transport(reason)),
    }
}

/// Accepts a response with a 2xx status and hands out its body; turns any
/// other response into `Error::HttpStatus` with the response's status and
/// body.
pub fn check_status(response: Response) -> (result: Result<Vec<u8>, Error>)
    ensures
        result == checked(response),
{
    if 200 <= response.status && response.status <= 299 {
        Ok(response.body)
    } else {
        Err(Error::HttpStatus { status: response.status, body: response.body })
    }
}

/// Reads the outcome of sending a request: a failure to reach the server is
/// `Error::Transport` with the transport's reason unchanged, and a response
/// is judged by its status.
pub fn receive(outcome: Result<Response, String>) -> (result: Result<Vec<u8>, Error>)
    ensures
        result == delivered(outcome),
{
    match outcome {
        Ok(response) => check_status(response),
        Err(reason) => Err(Error::Transport(reason)),
    }
}

/// The base URL and the credential of one API, given once and used for every
/// call.
#[derive(Debug)]
pub struct Client {
    pub base_url: String,
    pub token: String,
}

impl Clone for Client {
    fn clone(&self) -> (copy: Self)
        ensures
            copy.base_url@ == self.base_url@,
            copy.token@ == self.token@,
    {
        Client { base_url: self.base_url.clone(), token: self.token.clone() }
    }
}

impl Client {
    /// The value of the `Authorization` header that goes with every request.
    pub open spec fn bearer(&self) -> Seq<char> {
        "Bearer "@ + self.token@
    }

    /// The request that this client makes for a method, a path with its
    /// query, a body and a paging mode.
    pub open spec fn planned(
        &self,
        method: Method,
        path: Seq<char>,
        body: Option<Seq<u8>>,
        paging: Paging,
    ) -> RequestView {
        RequestView {
            method,
            url: self.base_url@ + path,
            authorization: self.bearer(),
            body,
            paging,
        }
    }

    /// The request for the next page of a listing, whose URL the server gave
    /// in full.
    pub open spec fn followed(&self, url: Seq<char>) -> RequestView {
        RequestView {
            method: Method::Get,
            url,
            authorization: self.bearer(),
            body: None,
            paging: Paging::All,
        }
    }

    /// A client for the API at `base_url`, authenticating with `token`.
    pub fn new(base_url: &str, token: &str) -> (client: Self)
        ensures
            client.base_url@ == base_url@,
            client.token@ == token@,
    {
        Client { base_url: base_url.to_owned(), token: token.to_owned() }
    }

    fn authorization(&self) -> (value: String)
        ensures
            value@ == self.bearer(),
    {
        "Bearer ".to_owned().concat(self.token.as_str())
    }

    /// Builds the request for `path` below the base URL, with the client's
    /// credential attached.
    pub fn request(&self, method: Method, path: &str, body: Option<Vec<u8>>, paging: Paging) -> (req:
        Request)
        ensures
            req@ == self.planned(method, path@, body_view(body), paging),
    {
        Request {
            method,
            url: self.base_url.clone().concat(path),
            authorization: self.authorization(),
            body,
            paging,
        }
    }

    /// A `GET` of `path` that wants one response.
    pub fn get(&self, path: &str, body: Option<Vec<u8>>) -> (req: Request)
        ensures
            req@ == self.planned(Method::Get, path@, body_view(body), Paging::Single),
    {
        self.request(Method::Get, path, body, Paging::Single)
    }

    /// A `GET` of `path` that wants every page of the listing.
    pub fn get_all_pages(&self, path: &str, body: Option<Vec<u8>>) -> (req: Request)
        ensures
            req@ == self.planned(Method::Get, path@, body_view(body), Paging::All),
    {
        self.request(Method::Get, path, body, Paging::All)
    }

    /// A `POST` to `path`.
    pub fn post(&self, path: &str, body: Option<Vec<u8>>) -> (req: Request)
        ensures
            req@ == self.planned(Method::Post, path@, body_view(body), Paging::Single),
    {
        self.request(Method::Post, path, body, Paging::Single)
    }

    /// A `PUT` to `path`.
    pub fn put(&self, path: &str, body: Option<Vec<u8>>) -> (req: Request)
        ensures
            req@ == self.planned(Method::Put, path@, body_view(body), Paging::Single),
    {
        self.request(Method::Put, path, body, Paging::Single)
    }

    /// A `DELETE` of `path`.
    pub fn delete(&self, path: &str, body: Option<Vec<u8>>) -> (req: Request)
        ensures
            req@ == self.planned(Method::Delete, path@, body_view(body), Paging::Single),
    {
        self.request(Method::Delete, path, body, Paging::Single)
    }

    /// A `GET` of the URL that a page named as its continuation. The URL is
    /// used as the server gave it, and the credential is attached as always.
    pub fn follow(&self, url: &str) -> (req: Request)
        ensures
            req@ == self.followed(url@),
    {
        Request {
            method: Method::Get,
            url: url.to_owned(),
            authorization: self.authorization(),
            body: None,
            paging: Paging::All,
        }
    }
}

} // verus!
