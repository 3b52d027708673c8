use vstd::prelude::*;

use crate::email::Email;
use crate::email_error::invalid_message;
use crate::grammar::valid_address;

verus! {

/// What decoding the string token `token` gives: the address, or the message
/// of the error that refused it.
pub open spec fn decode_spec(token: Seq<char>) -> Result<Seq<char>, Seq<char>> {
    if valid_address(token) {
        Ok(token)
    } else {
        Err(invalid_message(token))
    }
}

/// The text that a decoding result carries: the address, or the error message.
pub open spec fn decoded(r: Result<Email, String>) -> Result<Seq<char>, Seq<char>> {
    match r {
        Ok(e) => Ok(e@),
        Err(msg) => Err(msg@),
    }
}

/// The decisions a streaming decoder makes on a string token for an Email.
///
/// Only string tokens reach it: a decoder that meets any other kind of token
/// reports what it expected, `expecting`. Borrowed and owned tokens go through
/// the same constructor, so they are accepted and refused alike. A refusal
/// carries the error's description, for the decoder to wrap in its own error.
pub struct EmailVisitor;

impl EmailVisitor {
    /// What the decoder expected, for its error messages.
    pub fn expecting(&self) -> (r: &'static str)
        ensures
            r@ == "a valid email address"@,
    {
        "a valid email address"
    }

    /// Decodes a borrowed string token.
    pub fn visit_str(self, raw_email: &str) -> (r: Result<Email, String>)
        ensures
            decoded(r) == decode_spec(raw_email@),
    {
        match Email::from_str(raw_email) {
            Ok(email) => Ok(email),
            Err(err) => Err(err.to_string()),
        }
    }

    /// Decodes an owned string token.
    pub fn visit_string(self, raw_email: String) -> (r: Result<Email, String>)
        ensures
            decoded(r) == decode_spec(raw_email@),
    {
        match Email::from_string(raw_email) {
            Ok(email) => Ok(email),
            Err(err) => Err(err.to_string()),
        }
    }
}

/// The string token that encodes `email`: its text, with nothing around it.
pub open spec fn encode_spec(email: Email) -> Seq<char> {
    email@
}

/// Encoding an address and decoding the token gives the same address back.
pub proof fn law_text_round_trip(email: Email)
    requires
        valid_address(email@),
    ensures
        decode_spec(encode_spec(email)) == Ok::<Seq<char>, Seq<char>>(email@),
{
}

/// A token that the grammar refuses is refused by decoding, with the message
/// that names it.
pub proof fn law_refused_token(token: Seq<char>)
    requires
        !valid_address(token),
    ensures
        decode_spec(token) == Err::<Seq<char>, Seq<char>>(invalid_message(token)),
{
}

} // verus!
