use vstd::prelude::*;

use crate::email::Email;
use crate::email_error::invalid_message;
use crate::grammar::valid_address;

verus! {

/// Why a stored value could not be read back as an Email.
#[derive(Clone, Debug, PartialEq)]
pub enum StorageError {
    /// The named column held null where an address is required.
    Null { column: String },
    /// The stored text is not a valid address; holds the refusal's description.
    Custom { message: String },
}

/// A `StorageError` as text.
pub enum StorageFault {
    Null(Seq<char>),
    Custom(Seq<char>),
}

impl View for StorageError {
    type V = StorageFault;

    open spec fn view(&self) -> StorageFault {
        match self {
            StorageError::Null { column } => StorageFault::Null(column@),
            StorageError::Custom { message } => StorageFault::Custom(message@),
        }
    }
}

/// A nullable text value, as text.
pub open spec fn text_of(value: Option<String>) -> Option<Seq<char>> {
    match value {
        Some(s) => Some(s@),
        None => None,
    }
}

/// The nullable text value that stores the address `email`: never null.
pub open spec fn to_storage_spec(email: Seq<char>) -> Option<Seq<char>> {
    Some(email)
}

/// Reading a required column of name `column` that holds `value`.
pub open spec fn read_required_spec(value: Option<Seq<char>>, column: Seq<char>) -> Result<
    Seq<char>,
    StorageFault,
> {
    match value {
        None => Err(StorageFault::Null(column)),
        Some(t) => if valid_address(t) {
            Ok(t)
        } else {
            Err(StorageFault::Custom(invalid_message(t)))
        },
    }
}

/// Reading an optional column that holds `value`: null is no address.
pub open spec fn read_optional_spec(value: Option<Seq<char>>) -> Result<
    Option<Seq<char>>,
    StorageFault,
> {
    match value {
        None => Ok(None),
        Some(t) => if valid_address(t) {
            Ok(Some(t))
        } else {
            Err(StorageFault::Custom(invalid_message(t)))
        },
    }
}

/// A required read's result, as text.
pub open spec fn stored(r: Result<Email, StorageError>) -> Result<Seq<char>, StorageFault> {
    match r {
        Ok(e) => Ok(e@),
        Err(err) => Err(err@),
    }
}

/// An optional read's result, as text.
pub open spec fn stored_optional(r: Result<Option<Email>, StorageError>) -> Result<
    Option<Seq<char>>,
    StorageFault,
> {
    match r {
        Ok(Some(e)) => Ok(Some(e@)),
        Ok(None) => Ok(None),
        Err(err) => Err(err@),
    }
}

impl Email {
    /// The nullable text value that stores this address: its text, never null.
    pub fn to_storage(&self) -> (r: Option<String>)
        ensures
            text_of(r) == to_storage_spec(self@),
    {
        Some(self.to_string())
    }

    /// Reads a required column named `column` that holds `value`.
    ///
    /// Null is an error that names the column; text that is not a valid
    /// address is an error that holds the refusal's description.
    pub fn from_storage(value: Option<String>, column: &str) -> (r: Result<Email, StorageError>)
        ensures
            stored(r) == read_required_spec(text_of(value), column@),
    {
        match value {
            None => Err(StorageError::Null { column: column.to_owned() }),
            Some(raw) => match Email::from_string(raw) {
                Ok(email) => Ok(email),
                Err(err) => Err(StorageError::Custom { message: err.to_string() }),
            },
        }
    }

    /// Reads an optional column that holds `value`: null gives no address.
    pub fn from_storage_optional(value: Option<String>) -> (r: Result<
        Option<Email>,
        StorageError,
    >)
        ensures
            stored_optional(r) == read_optional_spec(text_of(value)),
    {
        match value {
            None => Ok(None),
            Some(raw) => match Email::from_string(raw) {
                Ok(email) => Ok(Some(email)),
                Err(err) => Err(StorageError::Custom { message: err.to_string() }),
            },
        }
    }

    /// Converts a generic nullable text value, without detail on failure:
    /// null and invalid text both give `None`.
    pub fn from_storage_value(value: Option<String>) -> (r: Option<Email>)
        ensures
            r is Some <==> (value matches Some(t) && valid_address(t@)),
            r matches Some(e) ==> text_of(value) == Some(e@),
    {
        match value {
            None => None,
            Some(raw) => match Email::from_string(raw) {
                Ok(email) => Some(email),
                Err(_) => None,
            },
        }
    }

    /// The logical type name that schema tooling reports for this column type.
    pub fn logical_type_name() -> (r: String)
        ensures
            r@ == "Email"@,
    {
        String::from_str("Email")
    }
}

/// A stored address reads back as the same address, from a required or an
/// optional column; a null reads as an error naming a required column, and as
/// no address from an optional one.
pub proof fn law_storage_round_trip(email: Email, column: Seq<char>)
    requires
        valid_address(email@),
    ensures
        read_required_spec(to_storage_spec(email@), column) == Ok::<Seq<char>, StorageFault>(
            email@,
        ),
        read_optional_spec(to_storage_spec(email@)) == Ok::<Option<Seq<char>>, StorageFault>(
            Some(email@),
        ),
        read_required_spec(None, column) == Err::<Seq<char>, StorageFault>(
            StorageFault::Null(column),
        ),
        read_optional_spec(None) == Ok::<Option<Seq<char>>, StorageFault>(None),
{
}

} // verus!
