//! What goes to the portal and what comes back.
//!
//! Every call is a POST of a form under one base address. The library says
//! what is sent as a [`Request`]; whoever sends it reports what happened as a
//! [`Reply`], and the library decides what that means.
use vstd::prelude::*;
use vstd::string::*;
use crate::error::{agrees, Error};
use crate::text::{decimal, decimal_text};

verus! {

/// The address under which all endpoints live.
pub const BASE_URL: &'static str = "https://www.portal-q-cells.us/phoebus";

/// A header or a form field.
#[derive(Debug)]
pub struct Pair {
    pub name: String,
    pub value: String,
}

impl View for Pair {
    type V = (Seq<char>, Seq<char>);

    open spec fn view(&self) -> (Seq<char>, Seq<char>) {
        (self.name@, self.value@)
    }
}

/// Headers or fields by what they hold, in order.
pub open spec fn pairs(list: Seq<Pair>) -> Seq<(Seq<char>, Seq<char>)> {
    list.map_values(|p: Pair| p@)
}

/// The headers of every request: the two fixed ones, then the session token
/// as it is, where the call needs one.
pub open spec fn headers_for(token: Option<Seq<char>>) -> Seq<(Seq<char>, Seq<char>)> {
    let fixed = seq![
        ("Accept"@, "application/json"@),
        ("Content-Type"@, "application/x-www-form-urlencoded;charset=UTF-8"@),
    ];
    match token {
        Some(t) => fixed.push(("token"@, t)),
        None => fixed,
    }
}

/// A POST of a form.
#[derive(Debug)]
pub struct Request {
    pub url: String,
    pub headers: Vec<Pair>,
    pub form: Vec<Pair>,
}

impl Pair {
    pub fn new(name: &str, value: &str) -> (r: Pair)
        ensures
            r@ == (name@, value@),
    {
        Pair { name: String::from_str(name), value: String::from_str(value) }
    }
}

/// What a request holds: its address, its headers and its form.
pub type Posted = (Seq<char>, Seq<(Seq<char>, Seq<char>)>, Seq<(Seq<char>, Seq<char>)>);

/// The request that posts `form` to the endpoint at `path`, under `token`
/// where the call needs one.
pub open spec fn posted(
    path: Seq<char>,
    token: Option<Seq<char>>,
    form: Seq<(Seq<char>, Seq<char>)>,
) -> Posted {
    (BASE_URL@ + path, headers_for(token), form)
}

impl View for Request {
    type V = Posted;

    open spec fn view(&self) -> Posted {
        (self.url@, pairs(self.headers@), pairs(self.form@))
    }
}

/// The view of a token that may be there.
pub open spec fn token_view(token: Option<&str>) -> Option<Seq<char>> {
    match token {
        Some(t) => Some(t@),
        None => None,
    }
}

impl Request {
    /// A request to the endpoint at `path`, with the session token where the
    /// caller has one, and with the form `form`.
    pub fn post(path: &str, token: Option<&str>, form: Vec<Pair>) -> (r: Request)
        ensures
            r@ == posted(path@, token_view(token), pairs(form@)),
    {
        let url = String::from_str(BASE_URL).concat(path);
        let mut headers: Vec<Pair> = Vec::new();
        headers.push(Pair::new("Accept", "application/json"));
        headers.push(
            Pair::new("Content-Type", "application/x-www-form-urlencoded;charset=UTF-8"),
        );
        match token {
            Some(t) => {
                headers.push(Pair::new("token", t));
            },
            None => {},
        }
        assert(pairs(headers@) =~= headers_for(token_view(token)));
        Request { url, headers, form }
    }
}

/// Whether a status code reports success: from 200 to 299.
pub open spec fn is_success(status: u16) -> bool {
    200 <= status < 300
}

/// What became of a request.
pub enum Reply<T> {
    /// It could not be built or sent, or no answer came; with the cause.
    Failed(String),
    /// The portal answered with this status. `body` is the decoded body, or
    /// why it could not be decoded; it counts only under a status of success.
    Answered { status: u16, body: Result<T, String> },
}

/// The message for a status that does not report success.
pub open spec fn status_message(status: u16) -> Seq<char> {
    "Received invalid status code "@ + decimal(status as nat)
}

impl<T> Reply<T> {
    /// What a reply comes to: the decoded body, or the message of the first
    /// thing that went wrong, asked in this order: the transport, the status,
    /// the decoding.
    pub open spec fn outcome(self) -> Result<T, Seq<char>> {
        match self {
            Reply::Failed(cause) => Err(cause@),
            Reply::Answered { status, body } => if !is_success(status) {
                Err(status_message(status))
            } else {
                match body {
                    Ok(value) => Ok(value),
                    Err(cause) => Err(cause@),
                }
            },
        }
    }

    /// Judges a reply.
    pub fn into_result(self) -> (r: Result<T, Error>)
        ensures
            agrees(r, self.outcome()),
    {
        match self {
            Reply::Failed(cause) => Err(Error::new(cause)),
            Reply::Answered { status, body } => {
                if status < 200 || status >= 300 {
                    let code = decimal_text(status as u64);
                    let message = String::from_str("Received invalid status code ").concat(
                        code.as_str(),
                    );
                    Err(Error::new(message))
                } else {
                    match body {
                        Ok(value) => Ok(value),
                        Err(cause) => Err(Error::new(cause)),
                    }
                }
            },
        }
    }
}

} // verus!
