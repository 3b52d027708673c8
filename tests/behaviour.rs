use email_type::is_valid_email;
use email_type::Email;
use email_type::EmailError;
use email_type::EmailVisitor;
use email_type::StorageError;
use email_type::DEFAULT_ADDRESS;

#[test]
fn refused_text_is_kept_in_the_error() {
    for raw in ["", "foxes", "@example.com", "john@"] {
        let err = Email::from_str(raw).unwrap_err();
        assert_eq!(
            err,
            EmailError::Invalid {
                raw_email: raw.to_string()
            }
        );
    }
}

#[test]
fn accepted_text_is_kept_unchanged() {
    let email = Email::from_str("john@example.com").unwrap();
    assert_eq!(email.as_str(), "john@example.com");
    assert_eq!(email.clone().into_string(), "john@example.com".to_string());
    let text: String = email.into();
    assert_eq!(text, "john@example.com");
}

#[test]
fn equality_is_case_sensitive() {
    let lower = Email::from_str("bob@example.com").unwrap();
    let mixed = Email::from_str("BoB@example.com").unwrap();
    assert!(lower != mixed);
    assert!(lower == Email::from_str("bob@example.com").unwrap());
    assert!(lower != "BoB@example.com".to_string());
}

#[test]
fn lowercase_twice_is_lowercase_once() {
    let email = Email::from_str("JoE@eXaMpLe.com").unwrap();
    let once = email.to_lowercase().unwrap();
    let twice = once.to_lowercase().unwrap();
    assert_eq!(once, twice);
    assert_eq!(once.as_str(), "joe@example.com");
}

#[test]
fn error_description_names_the_input() {
    let err = Email::from_str("foxes").unwrap_err();
    assert_eq!(err.to_string(), "invalid email address, was given 'foxes'");
}

#[test]
fn validity_check_follows_the_grammar() {
    assert!(is_valid_email("john@example.com"));
    assert!(!is_valid_email("donkeys"));
    assert!(!is_valid_email(""));
}

#[test]
fn default_is_the_placeholder_address() {
    let email = Email::default_email().unwrap();
    assert_eq!(email, DEFAULT_ADDRESS);
    assert_eq!(email.as_str(), "default@example.com");
}

#[test]
fn visitor_accepts_a_valid_token() {
    let email = Email::from_str("john@example.com").unwrap();
    let decoded = EmailVisitor.visit_str(email.as_str()).unwrap();
    assert_eq!(decoded, email);
    let owned = EmailVisitor.visit_string("john@example.com".to_string()).unwrap();
    assert_eq!(owned, email);
}

#[test]
fn visitor_refuses_an_invalid_token() {
    let borrowed = EmailVisitor.visit_str("donkeys").unwrap_err();
    let owned = EmailVisitor.visit_string("donkeys".to_string()).unwrap_err();
    assert_eq!(borrowed, "invalid email address, was given 'donkeys'");
    assert_eq!(borrowed, owned);
}

#[test]
fn visitor_says_what_it_expects() {
    assert_eq!(EmailVisitor.expecting(), "a valid email address");
}

#[test]
fn storage_round_trip() {
    let email = Email::from_str("x@example.com").unwrap();
    let value = email.to_storage();
    assert_eq!(value, Some("x@example.com".to_string()));
    assert_eq!(Email::from_storage(value.clone(), "email").unwrap(), email);
    assert_eq!(
        Email::from_storage_optional(value.clone()).unwrap(),
        Some(email.clone())
    );
    assert_eq!(Email::from_storage_value(value), Some(email));
}

#[test]
fn storage_null_is_an_error_when_required() {
    assert_eq!(
        Email::from_storage(None, "email").unwrap_err(),
        StorageError::Null {
            column: "email".to_string()
        }
    );
}

#[test]
fn storage_null_is_absence_when_optional() {
    assert_eq!(Email::from_storage_optional(None).unwrap(), None);
    assert_eq!(Email::from_storage_value(None), None);
}

#[test]
fn storage_invalid_text_is_a_custom_error() {
    let expected = StorageError::Custom {
        message: "invalid email address, was given 'donkeys'".to_string(),
    };
    assert_eq!(
        Email::from_storage(Some("donkeys".to_string()), "email").unwrap_err(),
        expected
    );
    assert_eq!(
        Email::from_storage_optional(Some("donkeys".to_string())).unwrap_err(),
        expected
    );
    assert_eq!(Email::from_storage_value(Some("donkeys".to_string())), None);
}

#[test]
fn storage_type_name() {
    assert_eq!(Email::logical_type_name(), "Email");
}
