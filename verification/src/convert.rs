//! The conversion of tokens to the types of the arguments that they are
//! for.

use vstd::prelude::*;
use crate::error::{EntranceError, ErrorView, Result};
use crate::tokens::Tokens;

verus! {

/// Converts a text with the `FromStr` of the target type, through
/// `str::parse`, and words a failure with the error's own `to_string`.
///
/// Not proved, and nothing is claimed: what a text converts to, and how a
/// failure is worded, is for the target type to say.
#[verifier::external_body]
fn from_text<T>(text: &str) -> (converted: std::result::Result<T, String>) where
    T: std::str::FromStr,
    T::Err: std::error::Error + 'static,
 {
    match text.parse::<T>() {
        Ok(value) => Ok(value),
        Err(error) => Err(error.to_string()),
    }
}

/// What a conversion's outcome means for the parse: the value, or
/// [`EntranceError::ParseError`] with the message of the conversion's error.
pub fn conversion_result<T>(converted: std::result::Result<T, String>) -> (parsed: Result<T>)
    ensures
        match converted {
            Ok(value) => parsed == Ok::<T, EntranceError>(value),
            Err(message) => parsed is Err && parsed->Err_0@ == ErrorView::ParseError(message@),
        },
{
    match converted {
        Ok(value) => Ok(value),
        Err(message) => Err(EntranceError::ParseError(message)),
    }
}

/// A helper function to parse argument
///
/// Converts one token to the type of its field. What the token converts to
/// is for the type's `FromStr` to say; a failure of the conversion comes back
/// as [`EntranceError::ParseError`], and as nothing else.
pub fn parse_argument<T>(arg: String) -> (parsed: Result<T>) where
    T: std::str::FromStr,
    T::Err: std::error::Error + 'static,

    ensures
        parsed is Err ==> parsed->Err_0@ is ParseError,
{
    conversion_result(from_text::<T>(arg.as_str()))
}

/// Whether every one of the outcomes is a value.
pub open spec fn all_converted<T>(outcomes: Seq<std::result::Result<T, String>>) -> bool {
    forall|i: int| 0 <= i < outcomes.len() ==> (#[trigger] outcomes[i]) is Ok
}

/// Whether outcome `at` is a failure and none in front of it is.
pub open spec fn first_failure<T>(outcomes: Seq<std::result::Result<T, String>>, at: int) -> bool {
    &&& 0 <= at < outcomes.len()
    &&& outcomes[at] is Err
    &&& forall|i: int| 0 <= i < at ==> (#[trigger] outcomes[i]) is Ok
}

/// Gathers the outcomes of converting a run of tokens.
///
/// Where every conversion gave a value, the values come back in the order of
/// their tokens, one for each. Otherwise the first failure comes back, as
/// [`EntranceError::ParseError`] with its message.
pub fn collect_converted<T>(outcomes: Vec<std::result::Result<T, String>>) -> (parsed: Result<
    Vec<T>,
>)
    ensures
        match parsed {
            Ok(values) => {
                &&& all_converted(outcomes@)
                &&& values@.len() == outcomes@.len()
                &&& forall|i: int|
                    #![trigger outcomes@[i]]
                    #![trigger values@[i]]
                    0 <= i < outcomes@.len() ==> outcomes@[i] == Ok::<T, String>(values@[i])
            },
            Err(error) => exists|at: int|
                first_failure(outcomes@, at) && error@ == ErrorView::ParseError(
                    (#[trigger] outcomes@[at])->Err_0@,
                ),
        },
{
    let mut values: Vec<T> = Vec::new();
    for outcome in iter: outcomes
        invariant
            iter.seq() == outcomes@,
            values@.len() == iter.index(),
            forall|i: int|
                #![trigger outcomes@[i]]
                #![trigger values@[i]]
                0 <= i < iter.index() ==> outcomes@[i] == Ok::<T, String>(values@[i]),
    {
        match outcome {
            Ok(value) => {
                values.push(value);
            },
            Err(message) => {
                return Err(EntranceError::ParseError(message));
            },
        }
    }
    Ok(values)
}

/// Converts every token that is left, in order, to the element type of a
/// variadic argument.
///
/// With no token left the collection is empty. Otherwise it holds one value
/// for each token, unless a conversion fails: the tokens up to that one are
/// taken, and the failure comes back as [`EntranceError::ParseError`].
pub fn parse_variable_argument<T>(args: &mut Tokens) -> (parsed: Result<Vec<T>>) where
    T: std::str::FromStr,
    T::Err: std::error::Error + 'static,

    ensures
        match parsed {
            Ok(values) => values@.len() == old(args)@.len() && final(args)@.len() == 0,
            Err(error) => error@ is ParseError && old(args)@.len() > 0,
        },
        old(args)@.len() == 0 ==> parsed is Ok && parsed->Ok_0@.len() == 0,
        final(args).spent() <= old(args).spent() + old(args)@.len(),
{
    let mut outcomes: Vec<std::result::Result<T, String>> = Vec::new();
    let mut more = true;
    while more
        invariant
            args.spent() == old(args).spent() + outcomes@.len(),
            outcomes@.len() + args@.len() == old(args)@.len(),
            more ==> all_converted(outcomes@),
            !more ==> (all_converted(outcomes@) && args@.len() == 0) || first_failure(
                outcomes@,
                outcomes@.len() - 1,
            ),
        decreases args@.len() + (if more { 1nat } else { 0nat }),
    {
        match args.next() {
            Some(token) => {
                let converted = from_text::<T>(token.as_str());
                more = converted.is_ok();
                outcomes.push(converted);
            },
            None => {
                more = false;
            },
        }
    }
    collect_converted(outcomes)
}

} // verus!
