use vstd::prelude::*;

verus! {

/// The reason a text was refused as an email address.
#[derive(Clone, Debug, PartialEq)]
pub enum EmailError {
    /// The text does not satisfy the email address grammar; it is kept as given.
    Invalid { raw_email: String },
}

/// The human-readable description of an `Invalid` error for the text `raw`.
pub open spec fn invalid_message(raw: Seq<char>) -> Seq<char> {
    "invalid email address, was given '"@ + raw + "'"@
}

impl EmailError {
    /// The text that was refused.
    pub open spec fn rejected(&self) -> Seq<char> {
        match self {
            EmailError::Invalid { raw_email } => raw_email@,
        }
    }

    /// Describes the error: `invalid email address, was given '<text>'`.
    pub fn to_string(&self) -> (r: String)
        ensures
            r@ == invalid_message(self.rejected()),
    {
        match self {
            EmailError::Invalid { raw_email } => {
                let mut out = String::from_str("invalid email address, was given '");
                out.append(raw_email.as_str());
                out.append("'");
                out
            },
        }
    }
}

} // verus!
