//! The ledger node's address, parsed by the `url` crate before anything is
//! sent to it.

use crate::client::BootstrapError;
use url::{ParseError, Url};
use vstd::prelude::*;

verus! {

/// The `url` crate's reason for refusing an input. Nothing is read from it.
#[verifier::external_type_specification]
#[verifier::external_body]
pub struct ExParseError(url::ParseError);

/// What `url::Url::parse` makes of `input`: the serialization of the URL it
/// parses to, or `None` where it refuses the input.
pub uninterp spec fn parsed_url(input: Seq<char>) -> Option<Seq<char>>;

/// `url::Url::parse`, with the URL handed out as its serialization (the
/// string that `Url::as_str` shows). The parser reads nothing but `input`.
#[verifier::external_body]
pub(crate) fn parse_url(input: &str) -> (res: Result<String, ParseError>)
    ensures
        match res {
            Ok(text) => parsed_url(input@) == Some(text@),
            Err(_) => parsed_url(input@) is None,
        },
{
    Url::parse(input).map(String::from)
}

/// A parsed endpoint: the serialization of an absolute URL.
#[derive(Debug)]
pub struct Endpoint {
    text: String,
}

impl View for Endpoint {
    type V = Seq<char>;

    closed spec fn view(&self) -> Seq<char> {
        self.text@
    }
}

impl Endpoint {
    /// Turns the parser's answer into an endpoint, or into `InvalidUrl`.
    pub fn from_parsed(parsed: Result<String, ParseError>) -> (res: Result<
        Endpoint,
        BootstrapError,
    >)
        ensures
            match parsed {
                Ok(text) => res matches Ok(endpoint) && endpoint@ == text@,
                Err(_) => res == Err::<Endpoint, BootstrapError>(BootstrapError::InvalidUrl),
            },
    {
        match parsed {
            Ok(text) => Ok(Endpoint { text }),
            Err(_) => Err(BootstrapError::InvalidUrl),
        }
    }

    /// Parses `rpc_url`. An address that does not parse is rejected here,
    /// before any network activity.
    pub fn parse(rpc_url: &str) -> (res: Result<Endpoint, BootstrapError>)
        ensures
            match res {
                Ok(endpoint) => parsed_url(rpc_url@) == Some(endpoint@),
                Err(e) => e == BootstrapError::InvalidUrl && parsed_url(rpc_url@) is None,
            },
    {
        Endpoint::from_parsed(parse_url(rpc_url))
    }

    /// The URL's serialization.
    pub fn as_str(&self) -> (text: &str)
        ensures
            text@ == self@,
    {
        self.text.as_str()
    }
}

} // verus!
