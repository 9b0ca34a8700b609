//! What the answer of the completion endpoint means.

use vstd::prelude::*;
use crate::error::Error;
use crate::text::{from_chars, texts, to_chars, trim, trimmed};

verus! {

/// The status reports success.
pub open spec fn is_success(status: u16) -> bool {
    200 <= status <= 299
}

/// What the completions of an answer yield: the first of them without the
/// white space around it.  An answer without completions is malformed.
pub open spec fn first_choice(choices: Seq<Seq<char>>) -> Result<Seq<char>, Error> {
    if choices.len() == 0 {
        Err(Error::MalformedResponse)
    } else {
        Ok(trim(choices[0]))
    }
}

/// The text of a reply, or its failure.
pub open spec fn reply_text(reply: Result<String, Error>) -> Result<Seq<char>, Error> {
    match reply {
        Ok(text) => Ok(text@),
        Err(e) => Err(e),
    }
}

/// Accepts a status of success and turns any other into a failure.
pub fn check_status(status: u16) -> (r: Result<(), Error>)
    ensures
        r == if is_success(status) {
            Ok::<(), Error>(())
        } else {
            Err::<(), Error>(Error::Api { status })
        },
{
    if 200 <= status && status <= 299 {
        Ok(())
    } else {
        Err(Error::Api { status })
    }
}

/// The first of the completions, without the white space around it.
pub fn first_choice_text(choices: &Vec<String>) -> (r: Result<String, Error>)
    ensures
        reply_text(r) == first_choice(texts(choices@)),
{
    if choices.len() == 0 {
        return Err(Error::MalformedResponse);
    }
    let content = to_chars(choices[0].as_str());
    Ok(from_chars(&trimmed(&content)))
}

} // verus!
