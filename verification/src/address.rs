//! Addresses, as `url` reads them.
use url::{ParseError, Url};
use vstd::prelude::*;

verus! {

/// `url::ParseError`, carried as an opaque value.
#[verifier::external_type_specification]
#[verifier::external_body]
pub struct ExParseError(ParseError);

/// The address in a text, in its normal form, or why there is none.
pub uninterp spec fn parsed_url(text: Seq<char>) -> Result<Seq<char>, ParseError>;

/// Calls `Url::parse`, and hands back an address in the text form that `Url` keeps of it.
#[verifier::external_body]
pub(crate) fn parse_url(text: &String) -> (result: Result<String, ParseError>)
    ensures
        match result {
            Ok(address) => parsed_url(text@) == Ok::<Seq<char>, ParseError>(address@),
            Err(err) => parsed_url(text@) == Err::<Seq<char>, ParseError>(err),
        },
{
    Url::parse(text).map(String::from)
}

/// The words of a parse error.
pub uninterp spec fn parse_error_text(err: ParseError) -> Seq<char>;

/// Calls `ParseError`'s `to_string`: every kind of parse error has a fixed text. Which text
/// that is, is left unsaid.
#[verifier::external_body]
pub(crate) fn parse_error_to_string(err: &ParseError) -> (text: String)
    ensures
        text@ == parse_error_text(*err),
{
    err.to_string()
}

} // verus!
