//! A validated email address value, with the decisions its text-codec and
//! relational-storage boundaries make when they turn outside values into it.

mod case;
mod email;
mod email_error;
mod grammar;
mod storage;
mod visitor;

pub use crate::case::lowercase_of;
pub use crate::case::uppercase_of;
pub use crate::email::construct_spec;
pub use crate::email::law_lowercase_keeps_lowercase_text;
pub use crate::email::outcome;
pub use crate::email::Email;
pub use crate::email::DEFAULT_ADDRESS;
pub use crate::email_error::EmailError;
pub use crate::email_error::invalid_message;
pub use crate::grammar::is_valid_email;
pub use crate::grammar::valid_address;
pub use crate::visitor::decode_spec;
pub use crate::visitor::decoded;
pub use crate::visitor::encode_spec;
pub use crate::visitor::law_refused_token;
pub use crate::visitor::law_text_round_trip;
pub use crate::visitor::EmailVisitor;
pub use crate::storage::law_storage_round_trip;
pub use crate::storage::read_optional_spec;
pub use crate::storage::read_required_spec;
pub use crate::storage::stored;
pub use crate::storage::stored_optional;
pub use crate::storage::text_of;
pub use crate::storage::to_storage_spec;
pub use crate::storage::StorageError;
pub use crate::storage::StorageFault;
