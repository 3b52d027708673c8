use vstd::prelude::*;

verus! {

/// Whether the `email_address` crate accepts `s` as an email address.
///
/// The grammar is the crate's own; this library only relies on the check being
/// a function of the text alone.
pub uninterp spec fn valid_address(s: Seq<char>) -> bool;

/// Relies on `email_address::EmailAddress::is_valid`, which parses the text with
/// the crate's default options and reports whether parsing succeeded.
#[verifier::external_body]
fn address_grammar_accepts(raw: &str) -> (r: bool)
    ensures
        r == valid_address(raw@),
{
    email_address::EmailAddress::is_valid(raw)
}

/// Tests whether the given text is a valid email address.
pub fn is_valid_email(raw: &str) -> (r: bool)
    ensures
        r == valid_address(raw@),
{
    address_grammar_accepts(raw)
}

} // verus!
