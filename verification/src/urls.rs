//! Addresses. An address is kept as its text; parsing, resolving a
//! reference against a base and encoding a query are left to the `url`
//! crate.

use vstd::prelude::*;

verus! {

/// The normal form of the absolute address `input`, or `None` where `input`
/// is no absolute address.
pub uninterp spec fn url_parsed(input: Seq<char>) -> Option<Seq<char>>;

/// The address that `reference` names when it is read at the address
/// `base`, or `None` where either is not understood.
pub uninterp spec fn url_joined(base: Seq<char>, reference: Seq<char>) -> Option<Seq<char>>;

/// The absolute address `input` with the pair `key=value` added to the end
/// of its query, or `None` where `input` is no absolute address.
pub uninterp spec fn url_with_pair(input: Seq<char>, key: Seq<char>, value: Seq<char>) -> Option<
    Seq<char>,
>;

/// The error of `url`. It is passed on and never looked into.
#[verifier::external_type_specification]
#[verifier::external_body]
pub struct ExParseError(url::ParseError);

/// Calls `url::Url::parse` and gives the address in its serialized form.
/// Whether the text is an address, and which, depends on the text alone.
#[verifier::external_body]
pub(crate) fn parse_url(input: &str) -> (res: Result<String, url::ParseError>)
    ensures
        (match res {
            Ok(u) => url_parsed(input@) == Some(u@),
            Err(_) => url_parsed(input@) is None,
        }),
{
    url::Url::parse(input).map(String::from)
}

/// Calls `url::Url::join` on the address that `base` parses to and gives
/// the result in its serialized form. The result depends on the two texts
/// alone.
#[verifier::external_body]
pub(crate) fn join_url(base: &str, reference: &str) -> (res: Result<String, url::ParseError>)
    ensures
        (match res {
            Ok(u) => url_joined(base@, reference@) == Some(u@),
            Err(_) => url_joined(base@, reference@) is None,
        }),
{
    url::Url::parse(base)?.join(reference).map(String::from)
}

/// Calls `url::Url::parse_with_params` with the one pair and gives the
/// result in its serialized form. The result depends on the three texts
/// alone.
#[verifier::external_body]
pub(crate) fn url_add_pair(input: &str, key: &str, value: &str) -> (res: Result<
    String,
    url::ParseError,
>)
    ensures
        (match res {
            Ok(u) => url_with_pair(input@, key@, value@) == Some(u@),
            Err(_) => url_with_pair(input@, key@, value@) is None,
        }),
{
    url::Url::parse_with_params(input, [(key, value)]).map(String::from)
}

} // verus!
