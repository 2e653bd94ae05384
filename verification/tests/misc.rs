use better_auth_rs_core::error::BaseErrorCode;
use better_auth_rs_core::strmap::StrMap;
use better_auth_rs_core::test_utils::{test_schema, MODEL};

#[test]
fn error_codes_and_messages() {
    assert_eq!(BaseErrorCode::UserNotFound.code(), "USER_NOT_FOUND");
    assert_eq!(BaseErrorCode::UserNotFound.message(), "User not found");
    assert_eq!(BaseErrorCode::InvalidPassword.to_string(), "INVALID_PASSWORD");
}

#[test]
fn strmap_keeps_keys_sorted_and_unique() {
    let mut m = StrMap::new();
    assert!(m.insert("b".to_owned(), 2).is_none());
    assert!(m.insert("a".to_owned(), 1).is_none());
    assert_eq!(m.insert("b".to_owned(), 3), Some(2));
    assert_eq!(m.len(), 2);
    assert_eq!(m.key_at(0), "a");
    assert_eq!(m.key_at(1), "b");
    assert_eq!(m.get("b"), Some(&3));
    assert_eq!(m.remove("a"), Some(1));
    assert!(!m.contains_key("a"));
    assert_eq!(m.remove("zz"), None);
    assert!(!m.is_empty());
}

#[test]
fn conformance_schema_has_the_four_columns() {
    let s = test_schema();
    let t = s.get(MODEL).unwrap();
    assert_eq!(t.model_name, "ba_test");
    assert_eq!(t.fields.len(), 4);
    assert_eq!(t.fields.get("tag").unwrap().config.required, Some(false));
}

#[test]
fn strmap_content_does_not_depend_on_insertion_order() {
    let mut a = StrMap::new();
    a.insert("x".to_owned(), 1);
    a.insert("a".to_owned(), 2);
    a.insert("m".to_owned(), 3);
    let mut b = StrMap::new();
    b.insert("m".to_owned(), 3);
    b.insert("x".to_owned(), 1);
    b.insert("a".to_owned(), 2);
    assert_eq!(a, b);
    assert_eq!(a.key_at(0), "a");
    assert_eq!(a.key_at(2), "x");
}

fn all_codes() -> Vec<BaseErrorCode> {
    vec![
        BaseErrorCode::UserNotFound,
        BaseErrorCode::FailedToCreateUser,
        BaseErrorCode::FailedToCreateSession,
        BaseErrorCode::FailedToUpdateUser,
        BaseErrorCode::FailedToGetSession,
        BaseErrorCode::InvalidPassword,
        BaseErrorCode::InvalidEmail,
        BaseErrorCode::InvalidEmailOrPassword,
        BaseErrorCode::InvalidUser,
        BaseErrorCode::SocialAccountAlreadyLinked,
        BaseErrorCode::ProviderNotFound,
        BaseErrorCode::InvalidToken,
        BaseErrorCode::TokenExpired,
        BaseErrorCode::IdTokenNotSupported,
        BaseErrorCode::FailedToGetUserInfo,
        BaseErrorCode::UserEmailNotFound,
        BaseErrorCode::EmailNotVerified,
        BaseErrorCode::PasswordTooShort,
        BaseErrorCode::PasswordTooLong,
        BaseErrorCode::UserAlreadyExists,
        BaseErrorCode::UserAlreadyExistsUseAnotherEmail,
        BaseErrorCode::EmailCanNotBeUpdated,
        BaseErrorCode::ChangeEmailDisabled,
        BaseErrorCode::CredentialAccountNotFound,
        BaseErrorCode::SessionExpired,
        BaseErrorCode::FailedToUnlinkLastAccount,
        BaseErrorCode::AccountNotFound,
        BaseErrorCode::UserAlreadyHasPassword,
        BaseErrorCode::CrossSiteNavigationLoginBlocked,
        BaseErrorCode::VerificationEmailNotEnabled,
        BaseErrorCode::EmailAlreadyVerified,
        BaseErrorCode::EmailMismatch,
        BaseErrorCode::SessionNotFresh,
        BaseErrorCode::LinkedAccountAlreadyExists,
        BaseErrorCode::InvalidOrigin,
        BaseErrorCode::InvalidCallbackUrl,
        BaseErrorCode::InvalidRedirectUrl,
        BaseErrorCode::InvalidErrorCallbackUrl,
        BaseErrorCode::InvalidNewUserCallbackUrl,
        BaseErrorCode::MissingOrNullOrigin,
        BaseErrorCode::CallbackUrlRequired,
        BaseErrorCode::FailedToCreateVerification,
        BaseErrorCode::FieldNotAllowed,
        BaseErrorCode::AsyncValidationNotSupported,
        BaseErrorCode::ValidationError,
        BaseErrorCode::MissingField,
        BaseErrorCode::MethodNotAllowedDeferSessionRequired,
        BaseErrorCode::BodyMustBeAnObject,
        BaseErrorCode::PasswordAlreadySet,
    ]
}

fn upper_snake(name: &str) -> String {
    let mut out = String::new();
    for (i, c) in name.chars().enumerate() {
        if i > 0 && c.is_ascii_uppercase() {
            out.push('_');
        }
        out.push(c.to_ascii_uppercase());
    }
    out
}

#[test]
fn codes_are_the_upper_snake_variant_names() {
    for v in all_codes() {
        assert_eq!(v.code(), upper_snake(&format!("{v:?}")));
    }
    assert_eq!(BaseErrorCode::IdTokenNotSupported.code(), "ID_TOKEN_NOT_SUPPORTED");
    assert_eq!(
        BaseErrorCode::MethodNotAllowedDeferSessionRequired.code(),
        "METHOD_NOT_ALLOWED_DEFER_SESSION_REQUIRED"
    );
}

#[test]
fn codes_and_messages_are_distinct() {
    let all = all_codes();
    for (i, a) in all.iter().enumerate() {
        for b in &all[i + 1..] {
            assert_ne!(a.code(), b.code());
            assert_ne!(a.message(), b.message());
        }
    }
    assert_eq!(BaseErrorCode::UserAlreadyExists.message(), "User already exists.");
    assert_eq!(BaseErrorCode::MissingField.message(), "Field is required");
    assert_eq!(BaseErrorCode::FailedToUnlinkLastAccount.message(), "You can't unlink your last account");
}
