//! The base authentication error codes: one variant per code, each with a stable
//! machine-readable code (the UPPER_SNAKE key) and a human-readable default message.

use vstd::prelude::*;

verus! {

/// The base authentication error codes. Each variant maps to a stable machine-readable
/// [`code`](Self::code) and a human-readable [`message`](Self::message).
#[derive(Debug, Clone, Copy, PartialEq, Eq, Hash)]
pub enum BaseErrorCode {
    /// "User not found"
    UserNotFound,
    /// "Failed to create user"
    FailedToCreateUser,
    /// "Failed to create session"
    FailedToCreateSession,
    /// "Failed to update user"
    FailedToUpdateUser,
    /// "Failed to get session"
    FailedToGetSession,
    /// "Invalid password"
    InvalidPassword,
    /// "Invalid email"
    InvalidEmail,
    /// "Invalid email or password"
    InvalidEmailOrPassword,
    /// "Invalid user"
    InvalidUser,
    /// "Social account already linked"
    SocialAccountAlreadyLinked,
    /// "Provider not found"
    ProviderNotFound,
    /// "Invalid token"
    InvalidToken,
    /// "Token expired"
    TokenExpired,
    /// "id_token not supported"
    IdTokenNotSupported,
    /// "Failed to get user info"
    FailedToGetUserInfo,
    /// "User email not found"
    UserEmailNotFound,
    /// "Email not verified"
    EmailNotVerified,
    /// "Password too short"
    PasswordTooShort,
    /// "Password too long"
    PasswordTooLong,
    /// "User already exists."
    UserAlreadyExists,
    /// "User already exists. Use another email."
    UserAlreadyExistsUseAnotherEmail,
    /// "Email can not be updated"
    EmailCanNotBeUpdated,
    /// "Change email is disabled"
    ChangeEmailDisabled,
    /// "Credential account not found"
    CredentialAccountNotFound,
    /// "Session expired. Re-authenticate to perform this action."
    SessionExpired,
    /// "You can't unlink your last account"
    FailedToUnlinkLastAccount,
    /// "Account not found"
    AccountNotFound,
    /// "User already has a password. Provide that to delete the account."
    UserAlreadyHasPassword,
    /// "Cross-site navigation login blocked. This request appears to be a CSRF attack."
    CrossSiteNavigationLoginBlocked,
    /// "Verification email isn't enabled"
    VerificationEmailNotEnabled,
    /// "Email is already verified"
    EmailAlreadyVerified,
    /// "Email mismatch"
    EmailMismatch,
    /// "Session is not fresh"
    SessionNotFresh,
    /// "Linked account already exists"
    LinkedAccountAlreadyExists,
    /// "Invalid origin"
    InvalidOrigin,
    /// "Invalid callbackURL"
    InvalidCallbackUrl,
    /// "Invalid redirectURL"
    InvalidRedirectUrl,
    /// "Invalid errorCallbackURL"
    InvalidErrorCallbackUrl,
    /// "Invalid newUserCallbackURL"
    InvalidNewUserCallbackUrl,
    /// "Missing or null Origin"
    MissingOrNullOrigin,
    /// "callbackURL is required"
    CallbackUrlRequired,
    /// "Unable to create verification"
    FailedToCreateVerification,
    /// "Field not allowed to be set"
    FieldNotAllowed,
    /// "Async validation is not supported"
    AsyncValidationNotSupported,
    /// "Validation Error"
    ValidationError,
    /// "Field is required"
    MissingField,
    /// "POST method requires deferSessionRefresh to be enabled in session config"
    MethodNotAllowedDeferSessionRequired,
    /// "Body must be an object"
    BodyMustBeAnObject,
    /// "User already has a password set"
    PasswordAlreadySet,
}

impl BaseErrorCode {
    /// The machine-readable code of each variant, as text.
    pub open spec fn code_text(self) -> Seq<char> {
        match self {
            Self::UserNotFound => "USER_NOT_FOUND"@,
            Self::FailedToCreateUser => "FAILED_TO_CREATE_USER"@,
            Self::FailedToCreateSession => "FAILED_TO_CREATE_SESSION"@,
            Self::FailedToUpdateUser => "FAILED_TO_UPDATE_USER"@,
            Self::FailedToGetSession => "FAILED_TO_GET_SESSION"@,
            Self::InvalidPassword => "INVALID_PASSWORD"@,
            Self::InvalidEmail => "INVALID_EMAIL"@,
            Self::InvalidEmailOrPassword => "INVALID_EMAIL_OR_PASSWORD"@,
            Self::InvalidUser => "INVALID_USER"@,
            Self::SocialAccountAlreadyLinked => "SOCIAL_ACCOUNT_ALREADY_LINKED"@,
            Self::ProviderNotFound => "PROVIDER_NOT_FOUND"@,
            Self::InvalidToken => "INVALID_TOKEN"@,
            Self::TokenExpired => "TOKEN_EXPIRED"@,
            Self::IdTokenNotSupported => "ID_TOKEN_NOT_SUPPORTED"@,
            Self::FailedToGetUserInfo => "FAILED_TO_GET_USER_INFO"@,
            Self::UserEmailNotFound => "USER_EMAIL_NOT_FOUND"@,
            Self::EmailNotVerified => "EMAIL_NOT_VERIFIED"@,
            Self::PasswordTooShort => "PASSWORD_TOO_SHORT"@,
            Self::PasswordTooLong => "PASSWORD_TOO_LONG"@,
            Self::UserAlreadyExists => "USER_ALREADY_EXISTS"@,
            Self::UserAlreadyExistsUseAnotherEmail => "USER_ALREADY_EXISTS_USE_ANOTHER_EMAIL"@,
            Self::EmailCanNotBeUpdated => "EMAIL_CAN_NOT_BE_UPDATED"@,
            Self::ChangeEmailDisabled => "CHANGE_EMAIL_DISABLED"@,
            Self::CredentialAccountNotFound => "CREDENTIAL_ACCOUNT_NOT_FOUND"@,
            Self::SessionExpired => "SESSION_EXPIRED"@,
            Self::FailedToUnlinkLastAccount => "FAILED_TO_UNLINK_LAST_ACCOUNT"@,
            Self::AccountNotFound => "ACCOUNT_NOT_FOUND"@,
            Self::UserAlreadyHasPassword => "USER_ALREADY_HAS_PASSWORD"@,
            Self::CrossSiteNavigationLoginBlocked => "CROSS_SITE_NAVIGATION_LOGIN_BLOCKED"@,
            Self::VerificationEmailNotEnabled => "VERIFICATION_EMAIL_NOT_ENABLED"@,
            Self::EmailAlreadyVerified => "EMAIL_ALREADY_VERIFIED"@,
            Self::EmailMismatch => "EMAIL_MISMATCH"@,
            Self::SessionNotFresh => "SESSION_NOT_FRESH"@,
            Self::LinkedAccountAlreadyExists => "LINKED_ACCOUNT_ALREADY_EXISTS"@,
            Self::InvalidOrigin => "INVALID_ORIGIN"@,
            Self::InvalidCallbackUrl => "INVALID_CALLBACK_URL"@,
            Self::InvalidRedirectUrl => "INVALID_REDIRECT_URL"@,
            Self::InvalidErrorCallbackUrl => "INVALID_ERROR_CALLBACK_URL"@,
            Self::InvalidNewUserCallbackUrl => "INVALID_NEW_USER_CALLBACK_URL"@,
            Self::MissingOrNullOrigin => "MISSING_OR_NULL_ORIGIN"@,
            Self::CallbackUrlRequired => "CALLBACK_URL_REQUIRED"@,
            Self::FailedToCreateVerification => "FAILED_TO_CREATE_VERIFICATION"@,
            Self::FieldNotAllowed => "FIELD_NOT_ALLOWED"@,
            Self::AsyncValidationNotSupported => "ASYNC_VALIDATION_NOT_SUPPORTED"@,
            Self::ValidationError => "VALIDATION_ERROR"@,
            Self::MissingField => "MISSING_FIELD"@,
            Self::MethodNotAllowedDeferSessionRequired => "METHOD_NOT_ALLOWED_DEFER_SESSION_REQUIRED"@,
            Self::BodyMustBeAnObject => "BODY_MUST_BE_AN_OBJECT"@,
            Self::PasswordAlreadySet => "PASSWORD_ALREADY_SET"@,
        }
    }

    /// The default human-readable message of each variant, as text.
    pub open spec fn message_text(self) -> Seq<char> {
        match self {
            Self::UserNotFound => "User not found"@,
            Self::FailedToCreateUser => "Failed to create user"@,
            Self::FailedToCreateSession => "Failed to create session"@,
            Self::FailedToUpdateUser => "Failed to update user"@,
            Self::FailedToGetSession => "Failed to get session"@,
            Self::InvalidPassword => "Invalid password"@,
            Self::InvalidEmail => "Invalid email"@,
            Self::InvalidEmailOrPassword => "Invalid email or password"@,
            Self::InvalidUser => "Invalid user"@,
            Self::SocialAccountAlreadyLinked => "Social account already linked"@,
            Self::ProviderNotFound => "Provider not found"@,
            Self::InvalidToken => "Invalid token"@,
            Self::TokenExpired => "Token expired"@,
            Self::IdTokenNotSupported => "id_token not supported"@,
            Self::FailedToGetUserInfo => "Failed to get user info"@,
            Self::UserEmailNotFound => "User email not found"@,
            Self::EmailNotVerified => "Email not verified"@,
            Self::PasswordTooShort => "Password too short"@,
            Self::PasswordTooLong => "Password too long"@,
            Self::UserAlreadyExists => "User already exists."@,
            Self::UserAlreadyExistsUseAnotherEmail => "User already exists. Use another email."@,
            Self::EmailCanNotBeUpdated => "Email can not be updated"@,
            Self::ChangeEmailDisabled => "Change email is disabled"@,
            Self::CredentialAccountNotFound => "Credential account not found"@,
            Self::SessionExpired => "Session expired. Re-authenticate to perform this action."@,
            Self::FailedToUnlinkLastAccount => "You can't unlink your last account"@,
            Self::AccountNotFound => "Account not found"@,
            Self::UserAlreadyHasPassword => "User already has a password. Provide that to delete the account."@,
            Self::CrossSiteNavigationLoginBlocked => "Cross-site navigation login blocked. This request appears to be a CSRF attack."@,
            Self::VerificationEmailNotEnabled => "Verification email isn't enabled"@,
            Self::EmailAlreadyVerified => "Email is already verified"@,
            Self::EmailMismatch => "Email mismatch"@,
            Self::SessionNotFresh => "Session is not fresh"@,
            Self::LinkedAccountAlreadyExists => "Linked account already exists"@,
            Self::InvalidOrigin => "Invalid origin"@,
            Self::InvalidCallbackUrl => "Invalid callbackURL"@,
            Self::InvalidRedirectUrl => "Invalid redirectURL"@,
            Self::InvalidErrorCallbackUrl => "Invalid errorCallbackURL"@,
            Self::InvalidNewUserCallbackUrl => "Invalid newUserCallbackURL"@,
            Self::MissingOrNullOrigin => "Missing or null Origin"@,
            Self::CallbackUrlRequired => "callbackURL is required"@,
            Self::FailedToCreateVerification => "Unable to create verification"@,
            Self::FieldNotAllowed => "Field not allowed to be set"@,
            Self::AsyncValidationNotSupported => "Async validation is not supported"@,
            Self::ValidationError => "Validation Error"@,
            Self::MissingField => "Field is required"@,
            Self::MethodNotAllowedDeferSessionRequired => "POST method requires deferSessionRefresh to be enabled in session config"@,
            Self::BodyMustBeAnObject => "Body must be an object"@,
            Self::PasswordAlreadySet => "User already has a password set"@,
        }
    }

    /// The machine-readable code: the UPPER_SNAKE key.
    pub fn code(self) -> (r: &'static str)
        ensures
            r@ == self.code_text(),
    {
        match self {
            Self::UserNotFound => "USER_NOT_FOUND",
            Self::FailedToCreateUser => "FAILED_TO_CREATE_USER",
            Self::FailedToCreateSession => "FAILED_TO_CREATE_SESSION",
            Self::FailedToUpdateUser => "FAILED_TO_UPDATE_USER",
            Self::FailedToGetSession => "FAILED_TO_GET_SESSION",
            Self::InvalidPassword => "INVALID_PASSWORD",
            Self::InvalidEmail => "INVALID_EMAIL",
            Self::InvalidEmailOrPassword => "INVALID_EMAIL_OR_PASSWORD",
            Self::InvalidUser => "INVALID_USER",
            Self::SocialAccountAlreadyLinked => "SOCIAL_ACCOUNT_ALREADY_LINKED",
            Self::ProviderNotFound => "PROVIDER_NOT_FOUND",
            Self::InvalidToken => "INVALID_TOKEN",
            Self::TokenExpired => "TOKEN_EXPIRED",
            Self::IdTokenNotSupported => "ID_TOKEN_NOT_SUPPORTED",
            Self::FailedToGetUserInfo => "FAILED_TO_GET_USER_INFO",
            Self::UserEmailNotFound => "USER_EMAIL_NOT_FOUND",
            Self::EmailNotVerified => "EMAIL_NOT_VERIFIED",
            Self::PasswordTooShort => "PASSWORD_TOO_SHORT",
            Self::PasswordTooLong => "PASSWORD_TOO_LONG",
            Self::UserAlreadyExists => "USER_ALREADY_EXISTS",
            Self::UserAlreadyExistsUseAnotherEmail => "USER_ALREADY_EXISTS_USE_ANOTHER_EMAIL",
            Self::EmailCanNotBeUpdated => "EMAIL_CAN_NOT_BE_UPDATED",
            Self::ChangeEmailDisabled => "CHANGE_EMAIL_DISABLED",
            Self::CredentialAccountNotFound => "CREDENTIAL_ACCOUNT_NOT_FOUND",
            Self::SessionExpired => "SESSION_EXPIRED",
            Self::FailedToUnlinkLastAccount => "FAILED_TO_UNLINK_LAST_ACCOUNT",
            Self::AccountNotFound => "ACCOUNT_NOT_FOUND",
            Self::UserAlreadyHasPassword => "USER_ALREADY_HAS_PASSWORD",
            Self::CrossSiteNavigationLoginBlocked => "CROSS_SITE_NAVIGATION_LOGIN_BLOCKED",
            Self::VerificationEmailNotEnabled => "VERIFICATION_EMAIL_NOT_ENABLED",
            Self::EmailAlreadyVerified => "EMAIL_ALREADY_VERIFIED",
            Self::EmailMismatch => "EMAIL_MISMATCH",
            Self::SessionNotFresh => "SESSION_NOT_FRESH",
            Self::LinkedAccountAlreadyExists => "LINKED_ACCOUNT_ALREADY_EXISTS",
            Self::InvalidOrigin => "INVALID_ORIGIN",
            Self::InvalidCallbackUrl => "INVALID_CALLBACK_URL",
            Self::InvalidRedirectUrl => "INVALID_REDIRECT_URL",
            Self::InvalidErrorCallbackUrl => "INVALID_ERROR_CALLBACK_URL",
            Self::InvalidNewUserCallbackUrl => "INVALID_NEW_USER_CALLBACK_URL",
            Self::MissingOrNullOrigin => "MISSING_OR_NULL_ORIGIN",
            Self::CallbackUrlRequired => "CALLBACK_URL_REQUIRED",
            Self::FailedToCreateVerification => "FAILED_TO_CREATE_VERIFICATION",
            Self::FieldNotAllowed => "FIELD_NOT_ALLOWED",
            Self::AsyncValidationNotSupported => "ASYNC_VALIDATION_NOT_SUPPORTED",
            Self::ValidationError => "VALIDATION_ERROR",
            Self::MissingField => "MISSING_FIELD",
            Self::MethodNotAllowedDeferSessionRequired => "METHOD_NOT_ALLOWED_DEFER_SESSION_REQUIRED",
            Self::BodyMustBeAnObject => "BODY_MUST_BE_AN_OBJECT",
            Self::PasswordAlreadySet => "PASSWORD_ALREADY_SET",
        }
    }

    /// The human-readable default message.
    pub fn message(self) -> (r: &'static str)
        ensures
            r@ == self.message_text(),
    {
        match self {
            Self::UserNotFound => "User not found",
            Self::FailedToCreateUser => "Failed to create user",
            Self::FailedToCreateSession => "Failed to create session",
            Self::FailedToUpdateUser => "Failed to update user",
            Self::FailedToGetSession => "Failed to get session",
            Self::InvalidPassword => "Invalid password",
            Self::InvalidEmail => "Invalid email",
            Self::InvalidEmailOrPassword => "Invalid email or password",
            Self::InvalidUser => "Invalid user",
            Self::SocialAccountAlreadyLinked => "Social account already linked",
            Self::ProviderNotFound => "Provider not found",
            Self::InvalidToken => "Invalid token",
            Self::TokenExpired => "Token expired",
            Self::IdTokenNotSupported => "id_token not supported",
            Self::FailedToGetUserInfo => "Failed to get user info",
            Self::UserEmailNotFound => "User email not found",
            Self::EmailNotVerified => "Email not verified",
            Self::PasswordTooShort => "Password too short",
            Self::PasswordTooLong => "Password too long",
            Self::UserAlreadyExists => "User already exists.",
            Self::UserAlreadyExistsUseAnotherEmail => "User already exists. Use another email.",
            Self::EmailCanNotBeUpdated => "Email can not be updated",
            Self::ChangeEmailDisabled => "Change email is disabled",
            Self::CredentialAccountNotFound => "Credential account not found",
            Self::SessionExpired => "Session expired. Re-authenticate to perform this action.",
            Self::FailedToUnlinkLastAccount => "You can't unlink your last account",
            Self::AccountNotFound => "Account not found",
            Self::UserAlreadyHasPassword => "User already has a password. Provide that to delete the account.",
            Self::CrossSiteNavigationLoginBlocked => "Cross-site navigation login blocked. This request appears to be a CSRF attack.",
            Self::VerificationEmailNotEnabled => "Verification email isn't enabled",
            Self::EmailAlreadyVerified => "Email is already verified",
            Self::EmailMismatch => "Email mismatch",
            Self::SessionNotFresh => "Session is not fresh",
            Self::LinkedAccountAlreadyExists => "Linked account already exists",
            Self::InvalidOrigin => "Invalid origin",
            Self::InvalidCallbackUrl => "Invalid callbackURL",
            Self::InvalidRedirectUrl => "Invalid redirectURL",
            Self::InvalidErrorCallbackUrl => "Invalid errorCallbackURL",
            Self::InvalidNewUserCallbackUrl => "Invalid newUserCallbackURL",
            Self::MissingOrNullOrigin => "Missing or null Origin",
            Self::CallbackUrlRequired => "callbackURL is required",
            Self::FailedToCreateVerification => "Unable to create verification",
            Self::FieldNotAllowed => "Field not allowed to be set",
            Self::AsyncValidationNotSupported => "Async validation is not supported",
            Self::ValidationError => "Validation Error",
            Self::MissingField => "Field is required",
            Self::MethodNotAllowedDeferSessionRequired => "POST method requires deferSessionRefresh to be enabled in session config",
            Self::BodyMustBeAnObject => "Body must be an object",
            Self::PasswordAlreadySet => "User already has a password set",
        }
    }

    /// The textual form of a code, which is its machine-readable code.
    pub fn to_string(self) -> (r: String)
        ensures
            r@ == self.code_text(),
    {
        String::from_str(self.code())
    }
}

/// The API error-code set: the base codes.
pub type ApiErrorCode = BaseErrorCode;

/// Whether a text is an UPPER_SNAKE word list: not empty, only capital letters and underscores,
/// neither starting nor ending with an underscore, and never two underscores in a row.
pub open spec fn is_upper_snake(s: Seq<char>) -> bool {
    &&& s.len() > 0
    &&& forall|i: int| 0 <= i < s.len() ==> ('A' <= #[trigger] s[i] <= 'Z' || s[i] == '_')
    &&& s[0] != '_'
    &&& s[s.len() - 1] != '_'
    &&& forall|i: int, j: int| 0 <= i && j == i + 1 && j < s.len() && #[trigger] s[i] == '_' ==> #[trigger] s[j] != '_'
}

impl BaseErrorCode {
    /// The length of a variant's code with its second and eleventh characters, which tell the
    /// codes apart.
    spec fn code_key(self) -> (nat, char, char) {
        match self {
            Self::UserNotFound => (14nat, 'S', 'O'),
            Self::FailedToCreateUser => (21nat, 'A', 'C'),
            Self::FailedToCreateSession => (24nat, 'A', 'C'),
            Self::FailedToUpdateUser => (21nat, 'A', 'U'),
            Self::FailedToGetSession => (21nat, 'A', 'G'),
            Self::InvalidPassword => (16nat, 'N', 'S'),
            Self::InvalidEmail => (13nat, 'N', 'A'),
            Self::InvalidEmailOrPassword => (25nat, 'N', 'A'),
            Self::InvalidUser => (12nat, 'N', 'E'),
            Self::SocialAccountAlreadyLinked => (29nat, 'O', 'O'),
            Self::ProviderNotFound => (18nat, 'R', 'O'),
            Self::InvalidToken => (13nat, 'N', 'K'),
            Self::TokenExpired => (13nat, 'O', 'R'),
            Self::IdTokenNotSupported => (22nat, 'D', 'O'),
            Self::FailedToGetUserInfo => (23nat, 'A', 'G'),
            Self::UserEmailNotFound => (20nat, 'S', '_'),
            Self::EmailNotVerified => (18nat, 'M', 'V'),
            Self::PasswordTooShort => (18nat, 'A', 'O'),
            Self::PasswordTooLong => (17nat, 'A', 'O'),
            Self::UserAlreadyExists => (19nat, 'S', 'D'),
            Self::UserAlreadyExistsUseAnotherEmail => (37nat, 'S', 'D'),
            Self::EmailCanNotBeUpdated => (24nat, 'M', 'N'),
            Self::ChangeEmailDisabled => (21nat, 'H', 'I'),
            Self::CredentialAccountNotFound => (28nat, 'R', '_'),
            Self::SessionExpired => (15nat, 'E', 'P'),
            Self::FailedToUnlinkLastAccount => (29nat, 'A', 'U'),
            Self::AccountNotFound => (17nat, 'C', 'T'),
            Self::UserAlreadyHasPassword => (25nat, 'S', 'D'),
            Self::CrossSiteNavigationLoginBlocked => (35nat, 'R', '_'),
            Self::VerificationEmailNotEnabled => (30nat, 'E', 'O'),
            Self::EmailAlreadyVerified => (22nat, 'M', 'A'),
            Self::EmailMismatch => (14nat, 'M', 'A'),
            Self::SessionNotFresh => (17nat, 'E', 'T'),
            Self::LinkedAccountAlreadyExists => (29nat, 'I', 'O'),
            Self::InvalidOrigin => (14nat, 'N', 'I'),
            Self::InvalidCallbackUrl => (20nat, 'N', 'L'),
            Self::InvalidRedirectUrl => (20nat, 'N', 'D'),
            Self::InvalidErrorCallbackUrl => (26nat, 'N', 'R'),
            Self::InvalidNewUserCallbackUrl => (29nat, 'N', 'W'),
            Self::MissingOrNullOrigin => (22nat, 'I', '_'),
            Self::CallbackUrlRequired => (21nat, 'A', 'R'),
            Self::FailedToCreateVerification => (29nat, 'A', 'C'),
            Self::FieldNotAllowed => (17nat, 'I', 'A'),
            Self::AsyncValidationNotSupported => (30nat, 'S', 'D'),
            Self::ValidationError => (16nat, 'A', '_'),
            Self::MissingField => (13nat, 'I', 'E'),
            Self::MethodNotAllowedDeferSessionRequired => (41nat, 'E', '_'),
            Self::BodyMustBeAnObject => (22nat, 'O', 'B'),
            Self::PasswordAlreadySet => (20nat, 'A', 'L'),
        }
    }

    /// The length of a variant's message with its first and twelfth characters, which tell the
    /// messages apart.
    spec fn message_key(self) -> (nat, char, char) {
        match self {
            Self::UserNotFound => (14nat, 'U', 'u'),
            Self::FailedToCreateUser => (21nat, 'F', 'r'),
            Self::FailedToCreateSession => (24nat, 'F', 'r'),
            Self::FailedToUpdateUser => (21nat, 'F', 'p'),
            Self::FailedToGetSession => (21nat, 'F', 'e'),
            Self::InvalidPassword => (16nat, 'I', 's'),
            Self::InvalidEmail => (13nat, 'I', 'i'),
            Self::InvalidEmailOrPassword => (25nat, 'I', 'i'),
            Self::InvalidUser => (12nat, 'I', 'r'),
            Self::SocialAccountAlreadyLinked => (29nat, 'S', 'u'),
            Self::ProviderNotFound => (18nat, 'P', 't'),
            Self::InvalidToken => (13nat, 'I', 'e'),
            Self::TokenExpired => (13nat, 'T', 'e'),
            Self::IdTokenNotSupported => (22nat, 'i', 't'),
            Self::FailedToGetUserInfo => (23nat, 'F', 'e'),
            Self::UserEmailNotFound => (20nat, 'U', 'n'),
            Self::EmailNotVerified => (18nat, 'E', 'e'),
            Self::PasswordTooShort => (18nat, 'P', 'o'),
            Self::PasswordTooLong => (17nat, 'P', 'o'),
            Self::UserAlreadyExists => (20nat, 'U', 'y'),
            Self::UserAlreadyExistsUseAnotherEmail => (39nat, 'U', 'y'),
            Self::EmailCanNotBeUpdated => (24nat, 'E', 'o'),
            Self::ChangeEmailDisabled => (24nat, 'C', 'l'),
            Self::CredentialAccountNotFound => (28nat, 'C', 'a'),
            Self::SessionExpired => (56nat, 'S', 'i'),
            Self::FailedToUnlinkLastAccount => (34nat, 'Y', 'n'),
            Self::AccountNotFound => (17nat, 'A', ' '),
            Self::UserAlreadyHasPassword => (64nat, 'U', 'y'),
            Self::CrossSiteNavigationLoginBlocked => (78nat, 'C', 'n'),
            Self::VerificationEmailNotEnabled => (32nat, 'V', 'n'),
            Self::EmailAlreadyVerified => (25nat, 'E', 'r'),
            Self::EmailMismatch => (14nat, 'E', 't'),
            Self::SessionNotFresh => (20nat, 'S', 'n'),
            Self::LinkedAccountAlreadyExists => (29nat, 'L', 'u'),
            Self::InvalidOrigin => (14nat, 'I', 'g'),
            Self::InvalidCallbackUrl => (19nat, 'I', 'l'),
            Self::InvalidRedirectUrl => (19nat, 'I', 'i'),
            Self::InvalidErrorCallbackUrl => (24nat, 'I', 'o'),
            Self::InvalidNewUserCallbackUrl => (26nat, 'I', 'U'),
            Self::MissingOrNullOrigin => (22nat, 'M', 'n'),
            Self::CallbackUrlRequired => (23nat, 'c', ' '),
            Self::FailedToCreateVerification => (29nat, 'U', 'r'),
            Self::FieldNotAllowed => (27nat, 'F', 'l'),
            Self::AsyncValidationNotSupported => (33nat, 'A', 'a'),
            Self::ValidationError => (16nat, 'V', 'E'),
            Self::MissingField => (17nat, 'F', 'q'),
            Self::MethodNotAllowedDeferSessionRequired => (72nat, 'P', ' '),
            Self::BodyMustBeAnObject => (22nat, 'B', 'e'),
            Self::PasswordAlreadySet => (31nat, 'U', 'y'),
        }
    }

    /// A variant's code has the key the table gives, and is an UPPER_SNAKE word list.
    proof fn lemma_code_key(self)
        ensures
            (self.code_text().len(), self.code_text()[1], self.code_text()[10]) == self.code_key(),
            is_upper_snake(self.code_text()),
    {
        match self {
            Self::UserNotFound => reveal_strlit("USER_NOT_FOUND"),
            Self::FailedToCreateUser => reveal_strlit("FAILED_TO_CREATE_USER"),
            Self::FailedToCreateSession => reveal_strlit("FAILED_TO_CREATE_SESSION"),
            Self::FailedToUpdateUser => reveal_strlit("FAILED_TO_UPDATE_USER"),
            Self::FailedToGetSession => reveal_strlit("FAILED_TO_GET_SESSION"),
            Self::InvalidPassword => reveal_strlit("INVALID_PASSWORD"),
            Self::InvalidEmail => reveal_strlit("INVALID_EMAIL"),
            Self::InvalidEmailOrPassword => reveal_strlit("INVALID_EMAIL_OR_PASSWORD"),
            Self::InvalidUser => reveal_strlit("INVALID_USER"),
            Self::SocialAccountAlreadyLinked => reveal_strlit("SOCIAL_ACCOUNT_ALREADY_LINKED"),
            Self::ProviderNotFound => reveal_strlit("PROVIDER_NOT_FOUND"),
            Self::InvalidToken => reveal_strlit("INVALID_TOKEN"),
            Self::TokenExpired => reveal_strlit("TOKEN_EXPIRED"),
            Self::IdTokenNotSupported => reveal_strlit("ID_TOKEN_NOT_SUPPORTED"),
            Self::FailedToGetUserInfo => reveal_strlit("FAILED_TO_GET_USER_INFO"),
            Self::UserEmailNotFound => reveal_strlit("USER_EMAIL_NOT_FOUND"),
            Self::EmailNotVerified => reveal_strlit("EMAIL_NOT_VERIFIED"),
            Self::PasswordTooShort => reveal_strlit("PASSWORD_TOO_SHORT"),
            Self::PasswordTooLong => reveal_strlit("PASSWORD_TOO_LONG"),
            Self::UserAlreadyExists => reveal_strlit("USER_ALREADY_EXISTS"),
            Self::UserAlreadyExistsUseAnotherEmail => reveal_strlit("USER_ALREADY_EXISTS_USE_ANOTHER_EMAIL"),
            Self::EmailCanNotBeUpdated => reveal_strlit("EMAIL_CAN_NOT_BE_UPDATED"),
            Self::ChangeEmailDisabled => reveal_strlit("CHANGE_EMAIL_DISABLED"),
            Self::CredentialAccountNotFound => reveal_strlit("CREDENTIAL_ACCOUNT_NOT_FOUND"),
            Self::SessionExpired => reveal_strlit("SESSION_EXPIRED"),
            Self::FailedToUnlinkLastAccount => reveal_strlit("FAILED_TO_UNLINK_LAST_ACCOUNT"),
            Self::AccountNotFound => reveal_strlit("ACCOUNT_NOT_FOUND"),
            Self::UserAlreadyHasPassword => reveal_strlit("USER_ALREADY_HAS_PASSWORD"),
            Self::CrossSiteNavigationLoginBlocked => reveal_strlit("CROSS_SITE_NAVIGATION_LOGIN_BLOCKED"),
            Self::VerificationEmailNotEnabled => reveal_strlit("VERIFICATION_EMAIL_NOT_ENABLED"),
            Self::EmailAlreadyVerified => reveal_strlit("EMAIL_ALREADY_VERIFIED"),
            Self::EmailMismatch => reveal_strlit("EMAIL_MISMATCH"),
            Self::SessionNotFresh => reveal_strlit("SESSION_NOT_FRESH"),
            Self::LinkedAccountAlreadyExists => reveal_strlit("LINKED_ACCOUNT_ALREADY_EXISTS"),
            Self::InvalidOrigin => reveal_strlit("INVALID_ORIGIN"),
            Self::InvalidCallbackUrl => reveal_strlit("INVALID_CALLBACK_URL"),
            Self::InvalidRedirectUrl => reveal_strlit("INVALID_REDIRECT_URL"),
            Self::InvalidErrorCallbackUrl => reveal_strlit("INVALID_ERROR_CALLBACK_URL"),
            Self::InvalidNewUserCallbackUrl => reveal_strlit("INVALID_NEW_USER_CALLBACK_URL"),
            Self::MissingOrNullOrigin => reveal_strlit("MISSING_OR_NULL_ORIGIN"),
            Self::CallbackUrlRequired => reveal_strlit("CALLBACK_URL_REQUIRED"),
            Self::FailedToCreateVerification => reveal_strlit("FAILED_TO_CREATE_VERIFICATION"),
            Self::FieldNotAllowed => reveal_strlit("FIELD_NOT_ALLOWED"),
            Self::AsyncValidationNotSupported => reveal_strlit("ASYNC_VALIDATION_NOT_SUPPORTED"),
            Self::ValidationError => reveal_strlit("VALIDATION_ERROR"),
            Self::MissingField => reveal_strlit("MISSING_FIELD"),
            Self::MethodNotAllowedDeferSessionRequired => reveal_strlit("METHOD_NOT_ALLOWED_DEFER_SESSION_REQUIRED"),
            Self::BodyMustBeAnObject => reveal_strlit("BODY_MUST_BE_AN_OBJECT"),
            Self::PasswordAlreadySet => reveal_strlit("PASSWORD_ALREADY_SET"),
        }
    }

    /// A variant's message has the key the table gives.
    proof fn lemma_message_key(self)
        ensures
            (self.message_text().len(), self.message_text()[0], self.message_text()[11]) == self.message_key(),
    {
        match self {
            Self::UserNotFound => reveal_strlit("User not found"),
            Self::FailedToCreateUser => reveal_strlit("Failed to create user"),
            Self::FailedToCreateSession => reveal_strlit("Failed to create session"),
            Self::FailedToUpdateUser => reveal_strlit("Failed to update user"),
            Self::FailedToGetSession => reveal_strlit("Failed to get session"),
            Self::InvalidPassword => reveal_strlit("Invalid password"),
            Self::InvalidEmail => reveal_strlit("Invalid email"),
            Self::InvalidEmailOrPassword => reveal_strlit("Invalid email or password"),
            Self::InvalidUser => reveal_strlit("Invalid user"),
            Self::SocialAccountAlreadyLinked => reveal_strlit("Social account already linked"),
            Self::ProviderNotFound => reveal_strlit("Provider not found"),
            Self::InvalidToken => reveal_strlit("Invalid token"),
            Self::TokenExpired => reveal_strlit("Token expired"),
            Self::IdTokenNotSupported => reveal_strlit("id_token not supported"),
            Self::FailedToGetUserInfo => reveal_strlit("Failed to get user info"),
            Self::UserEmailNotFound => reveal_strlit("User email not found"),
            Self::EmailNotVerified => reveal_strlit("Email not verified"),
            Self::PasswordTooShort => reveal_strlit("Password too short"),
            Self::PasswordTooLong => reveal_strlit("Password too long"),
            Self::UserAlreadyExists => reveal_strlit("User already exists."),
            Self::UserAlreadyExistsUseAnotherEmail => reveal_strlit("User already exists. Use another email."),
            Self::EmailCanNotBeUpdated => reveal_strlit("Email can not be updated"),
            Self::ChangeEmailDisabled => reveal_strlit("Change email is disabled"),
            Self::CredentialAccountNotFound => reveal_strlit("Credential account not found"),
            Self::SessionExpired => reveal_strlit("Session expired. Re-authenticate to perform this action."),
            Self::FailedToUnlinkLastAccount => reveal_strlit("You can't unlink your last account"),
            Self::AccountNotFound => reveal_strlit("Account not found"),
            Self::UserAlreadyHasPassword => reveal_strlit("User already has a password. Provide that to delete the account."),
            Self::CrossSiteNavigationLoginBlocked => reveal_strlit("Cross-site navigation login blocked. This request appears to be a CSRF attack."),
            Self::VerificationEmailNotEnabled => reveal_strlit("Verification email isn't enabled"),
            Self::EmailAlreadyVerified => reveal_strlit("Email is already verified"),
            Self::EmailMismatch => reveal_strlit("Email mismatch"),
            Self::SessionNotFresh => reveal_strlit("Session is not fresh"),
            Self::LinkedAccountAlreadyExists => reveal_strlit("Linked account already exists"),
            Self::InvalidOrigin => reveal_strlit("Invalid origin"),
            Self::InvalidCallbackUrl => reveal_strlit("Invalid callbackURL"),
            Self::InvalidRedirectUrl => reveal_strlit("Invalid redirectURL"),
            Self::InvalidErrorCallbackUrl => reveal_strlit("Invalid errorCallbackURL"),
            Self::InvalidNewUserCallbackUrl => reveal_strlit("Invalid newUserCallbackURL"),
            Self::MissingOrNullOrigin => reveal_strlit("Missing or null Origin"),
            Self::CallbackUrlRequired => reveal_strlit("callbackURL is required"),
            Self::FailedToCreateVerification => reveal_strlit("Unable to create verification"),
            Self::FieldNotAllowed => reveal_strlit("Field not allowed to be set"),
            Self::AsyncValidationNotSupported => reveal_strlit("Async validation is not supported"),
            Self::ValidationError => reveal_strlit("Validation Error"),
            Self::MissingField => reveal_strlit("Field is required"),
            Self::MethodNotAllowedDeferSessionRequired => reveal_strlit("POST method requires deferSessionRefresh to be enabled in session config"),
            Self::BodyMustBeAnObject => reveal_strlit("Body must be an object"),
            Self::PasswordAlreadySet => reveal_strlit("User already has a password set"),
        }
    }
}

/// Every code is an UPPER_SNAKE word list (only capital letters and single underscores between
/// words).
pub proof fn lemma_code_is_upper_snake(v: BaseErrorCode)
    ensures
        is_upper_snake(v.code_text()),
{
    v.lemma_code_key();
}

/// Distinct variants have distinct codes.
pub proof fn lemma_codes_distinct(a: BaseErrorCode, b: BaseErrorCode)
    requires
        a != b,
    ensures
        a.code_text() != b.code_text(),
{
    a.lemma_code_key();
    b.lemma_code_key();
}

/// Distinct variants have distinct messages.
pub proof fn lemma_messages_distinct(a: BaseErrorCode, b: BaseErrorCode)
    requires
        a != b,
    ensures
        a.message_text() != b.message_text(),
{
    a.lemma_message_key();
    b.lemma_message_key();
}

} // verus!
