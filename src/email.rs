use vstd::prelude::*;

use crate::case::lowercase;
use crate::case::lowercase_of;
use crate::case::uppercase;
use crate::case::uppercase_of;
use crate::email_error::EmailError;
use crate::grammar::is_valid_email;
use crate::grammar::valid_address;

verus! {

/// What a construction from the text `raw` gives, as text: the address itself
/// when the grammar accepts it, otherwise an error that keeps the text.
pub open spec fn construct_spec(raw: Seq<char>) -> Result<Seq<char>, Seq<char>> {
    if valid_address(raw) {
        Ok(raw)
    } else {
        Err(raw)
    }
}

/// The text that a construction result carries: the address, or the rejected input.
pub open spec fn outcome(r: Result<Email, EmailError>) -> Result<Seq<char>, Seq<char>> {
    match r {
        Ok(e) => Ok(e@),
        Err(err) => Err(err.rejected()),
    }
}

/// A validated email address.
///
/// Every value holds text that the email grammar accepts: the only way in is a
/// constructor that checks it. Comparison is exact and case-sensitive:
/// `bob@example.com` and `BoB@example.com` are different addresses.
#[derive(Debug, Hash)]
pub struct Email {
    raw_email: String,
}

impl View for Email {
    type V = Seq<char>;

    closed spec fn view(&self) -> Seq<char> {
        self.raw_email@
    }
}

impl Email {
    #[verifier::type_invariant]
    spec fn holds_valid_address(&self) -> bool {
        valid_address(self.raw_email@)
    }

    /// Creates an Email from the given text, which is kept unchanged.
    ///
    /// Fails with `EmailError::Invalid`, holding the text, when it is not a
    /// valid email address.
    pub fn from_string(raw_email: String) -> (r: Result<Email, EmailError>)
        ensures
            outcome(r) == construct_spec(raw_email@),
    {
        Email::try_from(raw_email)
    }

    /// Creates an Email from a copy of the given text.
    pub fn from_str(raw_email: &str) -> (r: Result<Email, EmailError>)
        ensures
            outcome(r) == construct_spec(raw_email@),
    {
        Email::from_string(raw_email.to_owned())
    }

    /// The stored text, borrowed; it always satisfies the email grammar.
    pub fn as_str(&self) -> (r: &str)
        ensures
            r@ == self@,
            valid_address(r@),
    {
        proof {
            use_type_invariant(self);
        }
        self.raw_email.as_str()
    }

    /// The stored text, given up by value.
    pub fn into_string(self) -> (r: String)
        ensures
            r@ == self@,
            valid_address(r@),
    {
        proof {
            use_type_invariant(&self);
        }
        self.raw_email
    }

    /// A copy of the stored text, exactly as it was given.
    pub fn to_string(&self) -> (r: String)
        ensures
            r@ == self@,
    {
        self.raw_email.clone()
    }

    /// The address with its text mapped to lowercase.
    ///
    /// The mapped text is checked against the grammar again rather than assumed
    /// to stay valid: a Unicode case mapping may change the text's length, and
    /// the grammar bounds lengths. When the check fails the error holds the
    /// mapped text.
    pub fn to_lowercase(&self) -> (r: Result<Email, EmailError>)
        ensures
            outcome(r) == construct_spec(lowercase_of(self@)),
    {
        Email::from_string(lowercase(self.raw_email.as_str()))
    }

    /// The address with its text mapped to uppercase, checked again as
    /// `to_lowercase` is.
    pub fn to_uppercase(&self) -> (r: Result<Email, EmailError>)
        ensures
            outcome(r) == construct_spec(uppercase_of(self@)),
    {
        Email::from_string(uppercase(self.raw_email.as_str()))
    }

    /// The placeholder address `default@example.com`, built through the
    /// checking constructor like any other.
    pub fn default_email() -> (r: Result<Email, EmailError>)
        ensures
            outcome(r) == construct_spec(DEFAULT_ADDRESS@),
    {
        Email::from_str(DEFAULT_ADDRESS)
    }
}

/// The text of the placeholder address.
pub const DEFAULT_ADDRESS: &'static str = "default@example.com";

impl Clone for Email {
    fn clone(&self) -> (r: Email)
        ensures
            r@ == self@,
    {
        proof {
            use_type_invariant(self);
        }
        Email { raw_email: self.raw_email.clone() }
    }
}

impl PartialEq for Email {
    fn eq(&self, other: &Email) -> (r: bool) {
        self.raw_email == other.raw_email
    }
}

impl vstd::std_specs::cmp::PartialEqSpecImpl for Email {
    open spec fn obeys_eq_spec() -> bool {
        true
    }

    open spec fn eq_spec(&self, other: &Email) -> bool {
        self@ == other@
    }
}

impl Eq for Email {
}

impl PartialEq<String> for Email {
    fn eq(&self, other: &String) -> (r: bool) {
        self.raw_email == *other
    }
}

impl vstd::std_specs::cmp::PartialEqSpecImpl<String> for Email {
    open spec fn obeys_eq_spec() -> bool {
        true
    }

    open spec fn eq_spec(&self, other: &String) -> bool {
        self@ == other@
    }
}

impl<'a> PartialEq<&'a str> for Email {
    fn eq(&self, other: &&'a str) -> (r: bool) {
        let text: String = (*other).to_owned();
        self.raw_email == text
    }
}

impl<'a> vstd::std_specs::cmp::PartialEqSpecImpl<&'a str> for Email {
    open spec fn obeys_eq_spec() -> bool {
        true
    }

    open spec fn eq_spec(&self, other: &&'a str) -> bool {
        self@ == (*other)@
    }
}

/// Lowercasing an address whose text the case mapping leaves unchanged gives
/// that same address back.
pub proof fn law_lowercase_keeps_lowercase_text(email: Email)
    requires
        valid_address(email@),
        lowercase_of(email@) == email@,
    ensures
        construct_spec(lowercase_of(email@)) == Ok::<Seq<char>, Seq<char>>(email@),
{
}

impl std::str::FromStr for Email {
    type Err = EmailError;

    fn from_str(s: &str) -> (r: Result<Email, EmailError>)
        ensures
            outcome(r) == construct_spec(s@),
    {
        Email::from_str(s)
    }
}

impl TryFrom<String> for Email {
    type Error = EmailError;

    fn try_from(raw: String) -> (r: Result<Email, EmailError>)
        ensures
            outcome(r) == construct_spec(raw@),
    {
        if !is_valid_email(raw.as_str()) {
            return Err(EmailError::Invalid { raw_email: raw });
        }
        Ok(Email { raw_email: raw })
    }
}

impl vstd::std_specs::convert::TryFromSpecImpl<String> for Email {
    open spec fn obeys_try_from_spec() -> bool {
        true
    }

    closed spec fn try_from_spec(v: String) -> Result<Email, EmailError> {
        if valid_address(v@) {
            Ok(Email { raw_email: v })
        } else {
            Err(EmailError::Invalid { raw_email: v })
        }
    }
}

impl<'a> TryFrom<&'a str> for Email {
    type Error = EmailError;

    fn try_from(raw: &'a str) -> (r: Result<Email, EmailError>)
        ensures
            outcome(r) == construct_spec(raw@),
    {
        Email::from_str(raw)
    }
}

/// A borrowed text gives no whole value to state the result as: `try_from`
/// states it over the address's text instead.
impl<'a> vstd::std_specs::convert::TryFromSpecImpl<&'a str> for Email {
    open spec fn obeys_try_from_spec() -> bool {
        false
    }

    open spec fn try_from_spec(v: &'a str) -> Result<Email, EmailError> {
        arbitrary()
    }
}

impl AsRef<str> for Email {
    fn as_ref(&self) -> (r: &str)
        ensures
            r@ == self@,
    {
        self.raw_email.as_str()
    }
}

impl From<Email> for String {
    fn from(email: Email) -> (r: String)
        ensures
            r@ == email@,
    {
        email.raw_email
    }
}

impl vstd::std_specs::convert::FromSpecImpl<Email> for String {
    open spec fn obeys_from_spec() -> bool {
        true
    }

    closed spec fn from_spec(email: Email) -> String {
        email.raw_email
    }
}

} // verus!
