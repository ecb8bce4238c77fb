//! The configuration of a run: one required value, the API key of the
//! chat-completion service.

use vstd::prelude::*;
use crate::error::Error;
use crate::error::ErrorView;

verus! {

/// The name of the environment value that holds the API key.
pub const API_KEY_VARIABLE: &'static str = "OPENAI_KEY";

/// What a run makes of the value found under `API_KEY_VARIABLE`: the key
/// where there is one, else a configuration error that names the variable.
pub open spec fn api_key_of(value: Option<Seq<char>>) -> Result<Seq<char>, ErrorView> {
    match value {
        Some(key) => Ok(key),
        None => Err(ErrorView::Config(API_KEY_VARIABLE@)),
    }
}

/// What `key` is in specifications.
pub open spec fn api_key_view(key: Result<String, Error>) -> Result<Seq<char>, ErrorView> {
    match key {
        Ok(key) => Ok(key@),
        Err(error) => Err(error@),
    }
}

/// Checks the value read from the environment, `None` where the variable is
/// not set or does not hold text. Without a key the run cannot start.
pub fn require_api_key(value: Option<String>) -> (key: Result<String, Error>)
    ensures
        api_key_view(key) == api_key_of(value.deep_view()),
{
    match value {
        Some(key) => Ok(key),
        None => Err(Error::Config(API_KEY_VARIABLE.to_owned())),
    }
}

} // verus!
