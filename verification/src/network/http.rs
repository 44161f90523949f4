//! Requests as the library describes them, and what a response's status means.
use crate::errors::Error;
use crate::network::models::AuthToken;
use crate::text::join;
use vstd::prelude::*;

verus! {

/// The methods of the requests that the library asks for.
#[derive(Debug, Clone, Copy, PartialEq, Eq, Structural)]
pub enum Method {
    Get,
    Delete,
}

/// A request that someone has to send to the service on the library's behalf.
#[derive(Debug, Clone, PartialEq, Eq)]
pub struct Request {
    pub method: Method,
    pub url: String,
    /// The token to authorize the request with, if it is sent in a session's name.
    pub token: Option<AuthToken>,
}

/// A request as a plain value.
pub struct RequestView {
    pub method: Method,
    pub url: Seq<char>,
    pub token: Option<Seq<char>>,
}

impl View for Request {
    type V = RequestView;

    open spec fn view(&self) -> RequestView {
        RequestView {
            method: self.method,
            url: self.url@,
            token: match self.token {
                Some(token) => Some(token@),
                None => None,
            },
        }
    }
}

/// The plain `GET` of `url`, in nobody's name.
pub open spec fn plain_get(url: Seq<char>) -> RequestView {
    RequestView { method: Method::Get, url, token: None }
}

/// The `GET` of `url` in the name of the session that `token` stands for.
pub open spec fn authorized_get(url: Seq<char>, token: Seq<char>) -> RequestView {
    RequestView { method: Method::Get, url, token: Some(token) }
}

impl Request {
    /// A request that gets `url`, in nobody's name.
    pub fn new(url: String) -> (request: Request)
        ensures
            request@ == plain_get(url@),
    {
        Request { method: Method::Get, url, token: None }
    }

    /// The same request, sent in the name of the session that `token` stands for.
    pub fn attach_token(self, token: &str) -> (request: Request)
        ensures
            request@ == (RequestView { token: Some(token@), ..self@ }),
    {
        Request { method: self.method, url: self.url, token: Some(String::from_str(token)) }
    }

    /// The same request, with another method.
    pub fn method(self, method: Method) -> (request: Request)
        ensures
            request@ == (RequestView { method, ..self@ }),
    {
        Request { method, url: self.url, token: self.token }
    }

    /// The value of the `Authorization` header that the request is to carry, if any.
    pub fn authorization(&self) -> (header: Option<String>)
        ensures
            match header {
                Some(value) => self@.token matches Some(token) && value@ == "Token "@ + token,
                None => self@.token is None,
            },
    {
        match &self.token {
            Some(token) => Some(join("Token ", token.as_str())),
            None => None,
        }
    }
}

/// The status code of a response: a number of three digits.
#[derive(Debug, Clone, Copy, PartialEq, Eq, Structural)]
pub struct StatusCode {
    code: u16,
}

impl StatusCode {
    pub closed spec fn value(&self) -> u16 {
        self.code
    }

    #[verifier::type_invariant]
    spec fn three_digits(&self) -> bool {
        100 <= self.code < 1000
    }

    /// The status code with this number, if the number has three digits.
    pub fn from_u16(code: u16) -> (status: Option<StatusCode>)
        ensures
            match status {
                Some(status) => status.value() == code && 100 <= code < 1000,
                None => !(100 <= code < 1000),
            },
    {
        if 100 <= code && code < 1000 {
            Some(StatusCode { code })
        } else {
            None
        }
    }

    pub fn as_u16(&self) -> (code: u16)
        ensures
            code == self.value(),
            100 <= code < 1000,
    {
        proof {
            use_type_invariant(self);
        }
        self.code
    }

    /// Whether the code is one of the 2xx.
    pub fn is_success(&self) -> (yes: bool)
        ensures
            yes == (200 <= self.value() < 300),
    {
        200 <= self.code && self.code < 300
    }

    /// Whether the code is one of the 3xx.
    pub fn is_redirection(&self) -> (yes: bool)
        ensures
            yes == (300 <= self.value() < 400),
    {
        300 <= self.code && self.code < 400
    }

    /// Whether the code is one of the 4xx.
    pub fn is_client_error(&self) -> (yes: bool)
        ensures
            yes == (400 <= self.value() < 500),
    {
        400 <= self.code && self.code < 500
    }

    /// Whether the code is one of the 5xx.
    pub fn is_server_error(&self) -> (yes: bool)
        ensures
            yes == (500 <= self.value() < 600),
    {
        500 <= self.code && self.code < 600
    }
}

/// The error that a response with status `code` stands for, if it stands for one.
pub open spec fn error_of_status(code: u16) -> Option<Error> {
    if 500 <= code < 600 {
        Some(Error::Server)
    } else if code == 404 {
        Some(Error::ResourceMissing)
    } else if 400 <= code < 500 {
        Some(Error::Client)
    } else if 300 <= code < 400 {
        Some(Error::ResourceMissing)
    } else {
        None
    }
}

/// Tells a response that can be read from one that reports a failure.
pub fn check_error(code: StatusCode) -> (outcome: Result<(), Error>)
    ensures
        match outcome {
            Ok(_) => error_of_status(code.value()) is None,
            Err(error) => error_of_status(code.value()) == Some(error),
        },
{
    let ucode = code.as_u16();
    if code.is_server_error() {
        Err(Error::Server)
    } else if ucode == 404 {
        Err(Error::ResourceMissing)
    } else if code.is_client_error() {
        Err(Error::Client)
    } else if code.is_redirection() {
        Err(Error::ResourceMissing)
    } else {
        Ok(())
    }
}

} // verus!
