//! The rate provider: where to ask, and what to make of its answer.

use vstd::prelude::*;
use vstd::string::StringExecFns;
use crate::json::{json_document, json_numbers, number_at, parse_document};
use crate::model::Rate;

verus! {

/// What came back from one call to the provider.
#[derive(Debug)]
pub enum UpstreamReply {
    /// The call did not get through.
    Unreachable,
    /// The provider answered with a status code and, where it could be
    /// read, a body.
    Answered { status: u16, body: Option<String> },
}

/// Why a call to the provider yields no rates.
#[derive(Clone, Copy, Debug, PartialEq, Eq, Structural)]
pub enum FetchError {
    /// The call did not get through.
    Transport,
    /// The provider answered with a status outside 200 to 299.
    Rejected { status: u16 },
    /// The body of the answer could not be read.
    Unreadable,
    /// The body is not JSON.
    Malformed,
}

/// The rates of one answer, by code. A code is absent where the answer has
/// no number for it.
pub type RateMap = Map<Seq<char>, Rate>;

/// The rates a document lists under `"rates"`.
pub open spec fn rates_in(document: serde_json::Value) -> RateMap {
    Map::new(
        |code: Seq<char>| json_numbers(document).contains_key(("rates"@, code)),
        |code: Seq<char>| Rate { bits: json_numbers(document)[("rates"@, code)] },
    )
}

/// The rate to store for a code: the fetched one, or `0.0` where the answer
/// has none.
pub open spec fn rate_or_zero(rates: RateMap, code: Seq<char>) -> Rate {
    if rates.contains_key(code) {
        rates[code]
    } else {
        Rate::zero_spec()
    }
}

/// Status codes that count as success.
pub open spec fn is_success(status: u16) -> bool {
    200 <= status <= 299
}

/// What an answer amounts to: the rates it carries, or the reason it
/// carries none.
pub open spec fn interpretation(reply: UpstreamReply) -> Result<RateMap, FetchError> {
    match reply {
        UpstreamReply::Unreachable => Err(FetchError::Transport),
        UpstreamReply::Answered { status, body } => if !is_success(status) {
            Err(FetchError::Rejected { status })
        } else {
            match body {
                None => Err(FetchError::Unreadable),
                Some(text) => match json_document(text@) {
                    None => Err(FetchError::Malformed),
                    Some(document) => Ok(rates_in(document)),
                },
            }
        },
    }
}

/// The rates of one successful answer.
pub struct RateTable {
    document: serde_json::Value,
}

impl View for RateTable {
    type V = RateMap;

    closed spec fn view(&self) -> RateMap {
        rates_in(self.document)
    }
}

/// The view of an interpreted answer.
pub open spec fn outcome_view(outcome: Result<RateTable, FetchError>) -> Result<
    RateMap,
    FetchError,
> {
    match outcome {
        Ok(table) => Ok(table@),
        Err(e) => Err(e),
    }
}

impl RateTable {
    /// The fetched rate for `code`, if the answer has a number for it.
    pub fn lookup(&self, code: &str) -> (rate: Option<Rate>)
        ensures
            rate == self@.get(code@),
    {
        match number_at(&self.document, "rates", code) {
            Some(bits) => Some(Rate::from_bits(bits)),
            None => None,
        }
    }

    /// The rate to store for `code`: the fetched one, or `0.0` where the
    /// answer has no number for it.
    pub fn rate_of(&self, code: &str) -> (rate: Rate)
        ensures
            rate == rate_or_zero(self@, code@),
    {
        match self.lookup(code) {
            Some(rate) => rate,
            None => Rate::zero(),
        }
    }
}

/// The address to ask for the latest rates with the given access key.
pub fn request_url(access_key: &str) -> (url: String)
    ensures
        url@ == "http://data.fixer.io/api/latest?access_key="@ + access_key@,
{
    String::from_str("http://data.fixer.io/api/latest?access_key=").concat(access_key)
}

/// Makes rates, or the reason there are none, of an answer.
///
/// Only an answer with a success status and a body that is JSON yields
/// rates. Whether single entries are usable is not judged here.
pub fn interpret(reply: &UpstreamReply) -> (outcome: Result<RateTable, FetchError>)
    ensures
        outcome_view(outcome) == interpretation(*reply),
{
    match reply {
        UpstreamReply::Unreachable => Err(FetchError::Transport),
        UpstreamReply::Answered { status, body } => {
            if *status < 200 || *status > 299 {
                return Err(FetchError::Rejected { status: *status });
            }
            match body {
                None => Err(FetchError::Unreadable),
                Some(text) => match parse_document(text.as_str()) {
                    Ok(document) => Ok(RateTable { document }),
                    Err(_) => Err(FetchError::Malformed),
                },
            }
        },
    }
}

} // verus!
