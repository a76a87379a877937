//! The errors that the account service reports, and the catalog that gives
//! each of them a name.
//!
//! The service numbers its errors, and reuses the small numbers under
//! different HTTP statuses. The catalog therefore looks an error up by its
//! code alone where it carries no status, and by the product of code and
//! status where it carries one. What the catalog does not know resolves to
//! nothing, and is left out of what a failed call reports.

use vstd::prelude::*;

verus! {

/// One error object as the account service sends it.
#[derive(Debug, Default)]
pub struct PlexTvError {
    pub code: u32,
    pub message: String,
    pub status: Option<u32>,
}

/// The error envelope of a failed response: the error objects in wire order.
#[derive(Debug, Default)]
pub struct PlexTvErrors {
    pub errors: Vec<PlexTvError>,
}

/// The closed catalog of conditions that the account service reports.
///
/// Each variant stands for one lookup key, given by [`ApiError::spec_code`].
#[derive(Debug, Clone, Copy, PartialEq, Eq, Structural)]
pub enum ApiError {
    ClientIdentifierMissing,
    Unauthorized,
    NotFound,
    OverRateLimit,
    RequestValidationError,
    MethodNotAllowed,
    NotAcceptable,
    InternalServerError,
    UnprocessableEntity,
    ForbiddenForRestrictedUsers,
    Blank,
    Taken,
    ForbiddenForNonSubscribers,
    ForbiddenForAnonymousUsers,
    AlreadyExists,
    RequiresAnonymousUser,
    PinNotFoundOrExpired,
    MfaNotEnabled,
    NoOtpSecret,
    MfaAlreadyEnabled,
    MfaInvalid,
    MfaRequired,
    LoginEmailOnly,
    LoginIssues,
    UserPasswordShort,
    UserPasswordBlacklisted,
    UserPasswordSame,
    UserEmailInvalid,
    UserUsernameDiffersFromEmail,
    UserUsernameInvalidCharacters,
    UserPinInvalid,
    UserPasswordConfirmationConfirmation,
    InvalidPassword,
    InvalidPin,
    MissingRole,
    Forbidden,
    NeedsPassword,
    InvalidPasswordOrVerificationCode,
    NeedsPasswordAndVerificationCode,
    InvalidUsername,
    UnavailableUsername,
    NeedsNonce,
    PaymentError,
    SubscriptionError,
    AlreadySubscribed,
    ProInstallerOnly,
    InvalidPlan,
    InvalidToken,
    CodeAlreadyUsed,
    InvalidProviderToken,
    NoEmailProvider,
    ProviderAlreadyLinked,
    CloudServerError,
    ProviderRevoked,
    UserResetPasswordTokenInvalid,
    UserPasswordInvalid,
    ProviderAccountAlreadyLinked,
    InvalidSettingsFormat,
    InvalidSubscriptionTime,
    PlexpassCanceled,
    ForbiddenDevice,
    CodeExpired,
    ProviderNetworkError,
    WebhookUrlInvalid,
    InvalidAnonymousToken,
    EnablingHttpsWithoutCertificate,
    RequirementsForSubscriptionNotMet,
    InvalidUserData,
    PlanConflicts,
    InvalidConsentFormat,
    ServerTokenRequired,
    PromoCodeTaken,
    GenericValidationError,
    GenericRequestError,
    ServiceUnavailable,
    InvalidCsr,
}

/// The key under which a wire error is looked up: its code alone, or its code
/// times the HTTP status where the error carries one.
pub open spec fn wire_key(code: u32, status: Option<u32>) -> int {
    match status {
        Some(s) => code * s,
        None => code as int,
    }
}

impl ApiError {
    /// The catalog itself: the lookup key of each variant.
    pub open spec fn spec_code(self) -> u32 {
        match self {
            ApiError::ClientIdentifierMissing => 400000,
            ApiError::Unauthorized => 401401,
            ApiError::NotFound => 404808,
            ApiError::OverRateLimit => 430287,
            ApiError::RequestValidationError => 401600,
            ApiError::MethodNotAllowed => 407025,
            ApiError::NotAcceptable => 408436,
            ApiError::InternalServerError => 503500,
            ApiError::UnprocessableEntity => 425376,
            ApiError::ForbiddenForRestrictedUsers => 406627,
            ApiError::Blank => 1010,
            ApiError::Taken => 1011,
            ApiError::ForbiddenForNonSubscribers => 407836,
            ApiError::ForbiddenForAnonymousUsers => 408239,
            ApiError::AlreadyExists => 427908,
            ApiError::RequiresAnonymousUser => 409045,
            ApiError::PinNotFoundOrExpired => 1020,
            ApiError::MfaNotEnabled => 432550,
            ApiError::NoOtpSecret => 432972,
            ApiError::MfaAlreadyEnabled => 433394,
            ApiError::MfaInvalid => 412228,
            ApiError::MfaRequired => 412629,
            ApiError::LoginEmailOnly => 413030,
            ApiError::LoginIssues => 413431,
            ApiError::UserPasswordShort => 1032,
            ApiError::UserPasswordBlacklisted => 1033,
            ApiError::UserPasswordSame => 1034,
            ApiError::UserEmailInvalid => 1035,
            ApiError::UserUsernameDiffersFromEmail => 1036,
            ApiError::UserUsernameInvalidCharacters => 1037,
            ApiError::UserPinInvalid => 1038,
            ApiError::UserPasswordConfirmationConfirmation => 1039,
            ApiError::InvalidPassword => 419120,
            ApiError::InvalidPin => 419523,
            ApiError::MissingRole => 419926,
            ApiError::Forbidden => 420329,
            ApiError::NeedsPassword => 420732,
            ApiError::InvalidPasswordOrVerificationCode => 421135,
            ApiError::NeedsPasswordAndVerificationCode => 421538,
            ApiError::InvalidUsername => 441834,
            ApiError::UnavailableUsername => 442256,
            ApiError::NeedsNonce => 442678,
            ApiError::PaymentError => 443100,
            ApiError::SubscriptionError => 443522,
            ApiError::AlreadySubscribed => 430268,
            ApiError::ProInstallerOnly => 424359,
            ApiError::InvalidPlan => 424762,
            ApiError::InvalidToken => 445210,
            ApiError::CodeAlreadyUsed => 431904,
            ApiError::InvalidProviderToken => 446054,
            ApiError::NoEmailProvider => 446476,
            ApiError::ProviderAlreadyLinked => 433131,
            ApiError::CloudServerError => 447320,
            ApiError::ProviderRevoked => 435010,
            ApiError::UserResetPasswordTokenInvalid => 1062,
            ApiError::UserPasswordInvalid => 1063,
            ApiError::ProviderAccountAlreadyLinked => 435176,
            ApiError::InvalidSettingsFormat => 449430,
            ApiError::InvalidSubscriptionTime => 449852,
            ApiError::PlexpassCanceled => 450274,
            ApiError::ForbiddenDevice => 430404,
            ApiError::CodeExpired => 451118,
            ApiError::ProviderNetworkError => 451540,
            ApiError::WebhookUrlInvalid => 1071,
            ApiError::InvalidAnonymousToken => 452384,
            ApiError::EnablingHttpsWithoutCertificate => 429200,
            ApiError::RequirementsForSubscriptionNotMet => 453228,
            ApiError::InvalidUserData => 453650,
            ApiError::PlanConflicts => 454072,
            ApiError::InvalidConsentFormat => 454494,
            ApiError::ServerTokenRequired => 435240,
            ApiError::PromoCodeTaken => 445810,
            ApiError::GenericValidationError => 843156,
            ApiError::GenericRequestError => 799600,
            ApiError::ServiceUnavailable => 509539,
            ApiError::InvalidCsr => 430440,
        }
    }

    /// The fixed message of each variant.
    pub open spec fn spec_message(self) -> Seq<char> {
        match self {
            ApiError::ClientIdentifierMissing => "X-Plex-Client-Identifier is missing"@,
            ApiError::Unauthorized => "User could not be authenticated"@,
            ApiError::NotFound => "The requested resource or endpoint could not be found"@,
            ApiError::OverRateLimit => "API rate limit exceeded"@,
            ApiError::RequestValidationError => "The request was malformed, missed a required parameter or contained invalid values for them"@,
            ApiError::MethodNotAllowed => "The request method is not allowed for this endpoint"@,
            ApiError::NotAcceptable => "None"@,
            ApiError::InternalServerError => "Internal Server Error. Something went wrong on our end"@,
            ApiError::UnprocessableEntity => "The server could not perform the action required with the entity provided"@,
            ApiError::ForbiddenForRestrictedUsers => "Managed users aren't allowed to perform this action"@,
            ApiError::Blank => "Required field cannot be blank"@,
            ApiError::Taken => "The value provided for the field has already been taken"@,
            ApiError::ForbiddenForNonSubscribers => "You need a subscription to perform this action"@,
            ApiError::ForbiddenForAnonymousUsers => "You need to sign up to perform this action"@,
            ApiError::AlreadyExists => "Already Exists"@,
            ApiError::RequiresAnonymousUser => "Only Anonymous users can perform this action."@,
            ApiError::PinNotFoundOrExpired => "Code not found or expired"@,
            ApiError::MfaNotEnabled => "Two-Factor authentication is not enabled yet"@,
            ApiError::NoOtpSecret => "The account has no OTP secret, please visit secret generation endpoint"@,
            ApiError::MfaAlreadyEnabled => "Two-Factor authentication already enabled"@,
            ApiError::MfaInvalid => "Invalid verification code"@,
            ApiError::MfaRequired => "Please enter the verification code"@,
            ApiError::LoginEmailOnly => "User could not be authenticated. This account only allows signing in with email address"@,
            ApiError::LoginIssues => "User could not be authenticated. This IP appears to be having trouble signing in to an account (detected repeated failures)"@,
            ApiError::UserPasswordShort => "Password must be at least 8 characters long"@,
            ApiError::UserPasswordBlacklisted => "Password not allowed (too weak)"@,
            ApiError::UserPasswordSame => "Password cannot be the same as the username or email"@,
            ApiError::UserEmailInvalid => "The value for email must be a valid email address"@,
            ApiError::UserUsernameDiffersFromEmail => "A different email address cannot be used as username"@,
            ApiError::UserUsernameInvalidCharacters => "The username includes invalid characters"@,
            ApiError::UserPinInvalid => "PIN must be 4 digits"@,
            ApiError::UserPasswordConfirmationConfirmation => "The password provided doesn't match the confirmation"@,
            ApiError::InvalidPassword => "A valid password is required to perform this action"@,
            ApiError::InvalidPin => "A valid PIN is required to perform this action"@,
            ApiError::MissingRole => "User is missing the required role to perform this action"@,
            ApiError::Forbidden => "This action is not available for this user"@,
            ApiError::NeedsPassword => "A valid password is needed to verify the new authentication provider."@,
            ApiError::InvalidPasswordOrVerificationCode => "A valid password and verification code are required to perform this action"@,
            ApiError::NeedsPasswordAndVerificationCode => "A valid password and verification code are required to verify the new authentication provider."@,
            ApiError::InvalidUsername => "The username is invalid."@,
            ApiError::UnavailableUsername => "The username is unavailable."@,
            ApiError::NeedsNonce => "A payment information nonce was not provided"@,
            ApiError::PaymentError => "An error happened processing the payment method"@,
            ApiError::SubscriptionError => "An error happened creating the subscription"@,
            ApiError::AlreadySubscribed => "An active subscription already exists for this user"@,
            ApiError::ProInstallerOnly => "This action is only available for Plex Professional Installers"@,
            ApiError::InvalidPlan => "The plan provided is not valid for this user"@,
            ApiError::InvalidToken => "The token provided doesn't correspond to a valid discount code"@,
            ApiError::CodeAlreadyUsed => "The user has already redeemed this discount"@,
            ApiError::InvalidProviderToken => "The provider token couldn't be validated with the provider"@,
            ApiError::NoEmailProvider => "The provider doesn't return an email address, please check the scope of the token."@,
            ApiError::ProviderAlreadyLinked => "The provider is already linked."@,
            ApiError::CloudServerError => "Something went wrong when attempting to manipulate the Cloud Server"@,
            ApiError::ProviderRevoked => "The auth token for this provider has been revoked by the user and is no longer valid"@,
            ApiError::UserResetPasswordTokenInvalid => "The token is invalid, please request a new one"@,
            ApiError::UserPasswordInvalid => "The password is not valid, please make sure its 8 characters long. If admin, it needs to be 10 characters long with at least 1 digit and a combination of lower and uppercase letters."@,
            ApiError::ProviderAccountAlreadyLinked => "The provider is already linked to another account."@,
            ApiError::InvalidSettingsFormat => "The settings format is not valid. Make sure is an array of hashes with id, type, value and hidden."@,
            ApiError::InvalidSubscriptionTime => "The subscription end time format is not valid."@,
            ApiError::PlexpassCanceled => "The Plex Pass subscription is currently set to cancel. You'll need to reactivate it before you can continue."@,
            ApiError::ForbiddenDevice => "This action is not available for this device."@,
            ApiError::CodeExpired => "The code provided expired"@,
            ApiError::ProviderNetworkError => "The request timed out or failed and the provider token couldn't be validated with the provider"@,
            ApiError::WebhookUrlInvalid => "The value for url must be a valid URL"@,
            ApiError::InvalidAnonymousToken => "No suitable anonymous user found for the given anonymous token"@,
            ApiError::EnablingHttpsWithoutCertificate => "Unable to update a certificate. No certificate exists."@,
            ApiError::RequirementsForSubscriptionNotMet => "User lacks some requirements for this subscription."@,
            ApiError::InvalidUserData => "Unable to read user data."@,
            ApiError::PlanConflicts => "The plan provided conflicts with the user's other existing plan."@,
            ApiError::InvalidConsentFormat => "The consent format is not valid. Make sure language is a 2-letters string and vendors is an array of hashes with an integer id and a boolean consent."@,
            ApiError::ServerTokenRequired => "A valid server token is required to perform this action"@,
            ApiError::PromoCodeTaken => "Code already exists for that specific campaign"@,
            ApiError::GenericValidationError => "One or more validation errors prevented the action from being performed"@,
            ApiError::GenericRequestError => "None"@,
            ApiError::ServiceUnavailable => "The server cannot handle the request"@,
            ApiError::InvalidCsr => "Invalid CSR"@,
        }
    }

    /// Whether some variant has `key` as its lookup key.
    pub open spec fn known_key(key: int) -> bool {
        exists|e: ApiError| #[trigger] e.spec_code() == key
    }

    /// The variant whose lookup key is `key`, where there is one.
    pub open spec fn spec_lookup(key: int) -> Option<ApiError> {
        if Self::known_key(key) {
            Some(choose|e: ApiError| #[trigger] e.spec_code() == key)
        } else {
            None
        }
    }

    /// What a wire error with this code and status resolves to.
    pub open spec fn spec_resolve(code: u32, status: Option<u32>) -> Option<ApiError> {
        Self::spec_lookup(wire_key(code, status))
    }

    /// The lookup key of this variant.
    pub fn code(&self) -> (c: u32)
        ensures
            c == self.spec_code(),
    {
        match self {
            ApiError::ClientIdentifierMissing => 400000,
            ApiError::Unauthorized => 401401,
            ApiError::NotFound => 404808,
            ApiError::OverRateLimit => 430287,
            ApiError::RequestValidationError => 401600,
            ApiError::MethodNotAllowed => 407025,
            ApiError::NotAcceptable => 408436,
            ApiError::InternalServerError => 503500,
            ApiError::UnprocessableEntity => 425376,
            ApiError::ForbiddenForRestrictedUsers => 406627,
            ApiError::Blank => 1010,
            ApiError::Taken => 1011,
            ApiError::ForbiddenForNonSubscribers => 407836,
            ApiError::ForbiddenForAnonymousUsers => 408239,
            ApiError::AlreadyExists => 427908,
            ApiError::RequiresAnonymousUser => 409045,
            ApiError::PinNotFoundOrExpired => 1020,
            ApiError::MfaNotEnabled => 432550,
            ApiError::NoOtpSecret => 432972,
            ApiError::MfaAlreadyEnabled => 433394,
            ApiError::MfaInvalid => 412228,
            ApiError::MfaRequired => 412629,
            ApiError::LoginEmailOnly => 413030,
            ApiError::LoginIssues => 413431,
            ApiError::UserPasswordShort => 1032,
            ApiError::UserPasswordBlacklisted => 1033,
            ApiError::UserPasswordSame => 1034,
            ApiError::UserEmailInvalid => 1035,
            ApiError::UserUsernameDiffersFromEmail => 1036,
            ApiError::UserUsernameInvalidCharacters => 1037,
            ApiError::UserPinInvalid => 1038,
            ApiError::UserPasswordConfirmationConfirmation => 1039,
            ApiError::InvalidPassword => 419120,
            ApiError::InvalidPin => 419523,
            ApiError::MissingRole => 419926,
            ApiError::Forbidden => 420329,
            ApiError::NeedsPassword => 420732,
            ApiError::InvalidPasswordOrVerificationCode => 421135,
            ApiError::NeedsPasswordAndVerificationCode => 421538,
            ApiError::InvalidUsername => 441834,
            ApiError::UnavailableUsername => 442256,
            ApiError::NeedsNonce => 442678,
            ApiError::PaymentError => 443100,
            ApiError::SubscriptionError => 443522,
            ApiError::AlreadySubscribed => 430268,
            ApiError::ProInstallerOnly => 424359,
            ApiError::InvalidPlan => 424762,
            ApiError::InvalidToken => 445210,
            ApiError::CodeAlreadyUsed => 431904,
            ApiError::InvalidProviderToken => 446054,
            ApiError::NoEmailProvider => 446476,
            ApiError::ProviderAlreadyLinked => 433131,
            ApiError::CloudServerError => 447320,
            ApiError::ProviderRevoked => 435010,
            ApiError::UserResetPasswordTokenInvalid => 1062,
            ApiError::UserPasswordInvalid => 1063,
            ApiError::ProviderAccountAlreadyLinked => 435176,
            ApiError::InvalidSettingsFormat => 449430,
            ApiError::InvalidSubscriptionTime => 449852,
            ApiError::PlexpassCanceled => 450274,
            ApiError::ForbiddenDevice => 430404,
            ApiError::CodeExpired => 451118,
            ApiError::ProviderNetworkError => 451540,
            ApiError::WebhookUrlInvalid => 1071,
            ApiError::InvalidAnonymousToken => 452384,
            ApiError::EnablingHttpsWithoutCertificate => 429200,
            ApiError::RequirementsForSubscriptionNotMet => 453228,
            ApiError::InvalidUserData => 453650,
            ApiError::PlanConflicts => 454072,
            ApiError::InvalidConsentFormat => 454494,
            ApiError::ServerTokenRequired => 435240,
            ApiError::PromoCodeTaken => 445810,
            ApiError::GenericValidationError => 843156,
            ApiError::GenericRequestError => 799600,
            ApiError::ServiceUnavailable => 509539,
            ApiError::InvalidCsr => 430440,
        }
    }

    /// The human-readable message of this variant.
    pub fn message(&self) -> (m: &'static str)
        ensures
            m@ == self.spec_message(),
    {
        match self {
            ApiError::ClientIdentifierMissing => "X-Plex-Client-Identifier is missing",
            ApiError::Unauthorized => "User could not be authenticated",
            ApiError::NotFound => "The requested resource or endpoint could not be found",
            ApiError::OverRateLimit => "API rate limit exceeded",
            ApiError::RequestValidationError => "The request was malformed, missed a required parameter or contained invalid values for them",
            ApiError::MethodNotAllowed => "The request method is not allowed for this endpoint",
            ApiError::NotAcceptable => "None",
            ApiError::InternalServerError => "Internal Server Error. Something went wrong on our end",
            ApiError::UnprocessableEntity => "The server could not perform the action required with the entity provided",
            ApiError::ForbiddenForRestrictedUsers => "Managed users aren't allowed to perform this action",
            ApiError::Blank => "Required field cannot be blank",
            ApiError::Taken => "The value provided for the field has already been taken",
            ApiError::ForbiddenForNonSubscribers => "You need a subscription to perform this action",
            ApiError::ForbiddenForAnonymousUsers => "You need to sign up to perform this action",
            ApiError::AlreadyExists => "Already Exists",
            ApiError::RequiresAnonymousUser => "Only Anonymous users can perform this action.",
            ApiError::PinNotFoundOrExpired => "Code not found or expired",
            ApiError::MfaNotEnabled => "Two-Factor authentication is not enabled yet",
            ApiError::NoOtpSecret => "The account has no OTP secret, please visit secret generation endpoint",
            ApiError::MfaAlreadyEnabled => "Two-Factor authentication already enabled",
            ApiError::MfaInvalid => "Invalid verification code",
            ApiError::MfaRequired => "Please enter the verification code",
            ApiError::LoginEmailOnly => "User could not be authenticated. This account only allows signing in with email address",
            ApiError::LoginIssues => "User could not be authenticated. This IP appears to be having trouble signing in to an account (detected repeated failures)",
            ApiError::UserPasswordShort => "Password must be at least 8 characters long",
            ApiError::UserPasswordBlacklisted => "Password not allowed (too weak)",
            ApiError::UserPasswordSame => "Password cannot be the same as the username or email",
            ApiError::UserEmailInvalid => "The value for email must be a valid email address",
            ApiError::UserUsernameDiffersFromEmail => "A different email address cannot be used as username",
            ApiError::UserUsernameInvalidCharacters => "The username includes invalid characters",
            ApiError::UserPinInvalid => "PIN must be 4 digits",
            ApiError::UserPasswordConfirmationConfirmation => "The password provided doesn't match the confirmation",
            ApiError::InvalidPassword => "A valid password is required to perform this action",
            ApiError::InvalidPin => "A valid PIN is required to perform this action",
            ApiError::MissingRole => "User is missing the required role to perform this action",
            ApiError::Forbidden => "This action is not available for this user",
            ApiError::NeedsPassword => "A valid password is needed to verify the new authentication provider.",
            ApiError::InvalidPasswordOrVerificationCode => "A valid password and verification code are required to perform this action",
            ApiError::NeedsPasswordAndVerificationCode => "A valid password and verification code are required to verify the new authentication provider.",
            ApiError::InvalidUsername => "The username is invalid.",
            ApiError::UnavailableUsername => "The username is unavailable.",
            ApiError::NeedsNonce => "A payment information nonce was not provided",
            ApiError::PaymentError => "An error happened processing the payment method",
            ApiError::SubscriptionError => "An error happened creating the subscription",
            ApiError::AlreadySubscribed => "An active subscription already exists for this user",
            ApiError::ProInstallerOnly => "This action is only available for Plex Professional Installers",
            ApiError::InvalidPlan => "The plan provided is not valid for this user",
            ApiError::InvalidToken => "The token provided doesn't correspond to a valid discount code",
            ApiError::CodeAlreadyUsed => "The user has already redeemed this discount",
            ApiError::InvalidProviderToken => "The provider token couldn't be validated with the provider",
            ApiError::NoEmailProvider => "The provider doesn't return an email address, please check the scope of the token.",
            ApiError::ProviderAlreadyLinked => "The provider is already linked.",
            ApiError::CloudServerError => "Something went wrong when attempting to manipulate the Cloud Server",
            ApiError::ProviderRevoked => "The auth token for this provider has been revoked by the user and is no longer valid",
            ApiError::UserResetPasswordTokenInvalid => "The token is invalid, please request a new one",
            ApiError::UserPasswordInvalid => "The password is not valid, please make sure its 8 characters long. If admin, it needs to be 10 characters long with at least 1 digit and a combination of lower and uppercase letters.",
            ApiError::ProviderAccountAlreadyLinked => "The provider is already linked to another account.",
            ApiError::InvalidSettingsFormat => "The settings format is not valid. Make sure is an array of hashes with id, type, value and hidden.",
            ApiError::InvalidSubscriptionTime => "The subscription end time format is not valid.",
            ApiError::PlexpassCanceled => "The Plex Pass subscription is currently set to cancel. You'll need to reactivate it before you can continue.",
            ApiError::ForbiddenDevice => "This action is not available for this device.",
            ApiError::CodeExpired => "The code provided expired",
            ApiError::ProviderNetworkError => "The request timed out or failed and the provider token couldn't be validated with the provider",
            ApiError::WebhookUrlInvalid => "The value for url must be a valid URL",
            ApiError::InvalidAnonymousToken => "No suitable anonymous user found for the given anonymous token",
            ApiError::EnablingHttpsWithoutCertificate => "Unable to update a certificate. No certificate exists.",
            ApiError::RequirementsForSubscriptionNotMet => "User lacks some requirements for this subscription.",
            ApiError::InvalidUserData => "Unable to read user data.",
            ApiError::PlanConflicts => "The plan provided conflicts with the user's other existing plan.",
            ApiError::InvalidConsentFormat => "The consent format is not valid. Make sure language is a 2-letters string and vendors is an array of hashes with an integer id and a boolean consent.",
            ApiError::ServerTokenRequired => "A valid server token is required to perform this action",
            ApiError::PromoCodeTaken => "Code already exists for that specific campaign",
            ApiError::GenericValidationError => "One or more validation errors prevented the action from being performed",
            ApiError::GenericRequestError => "None",
            ApiError::ServiceUnavailable => "The server cannot handle the request",
            ApiError::InvalidCsr => "Invalid CSR",
        }
    }

    /// Looks a key up in the catalog.
    pub fn from_key(key: u64) -> (r: Option<ApiError>)
        ensures
            r == Self::spec_lookup(key as int),
    {
        let found = match key {
            400000 => Some(ApiError::ClientIdentifierMissing),
            401401 => Some(ApiError::Unauthorized),
            404808 => Some(ApiError::NotFound),
            430287 => Some(ApiError::OverRateLimit),
            401600 => Some(ApiError::RequestValidationError),
            407025 => Some(ApiError::MethodNotAllowed),
            408436 => Some(ApiError::NotAcceptable),
            503500 => Some(ApiError::InternalServerError),
            425376 => Some(ApiError::UnprocessableEntity),
            406627 => Some(ApiError::ForbiddenForRestrictedUsers),
            1010 => Some(ApiError::Blank),
            1011 => Some(ApiError::Taken),
            407836 => Some(ApiError::ForbiddenForNonSubscribers),
            408239 => Some(ApiError::ForbiddenForAnonymousUsers),
            427908 => Some(ApiError::AlreadyExists),
            409045 => Some(ApiError::RequiresAnonymousUser),
            1020 => Some(ApiError::PinNotFoundOrExpired),
            432550 => Some(ApiError::MfaNotEnabled),
            432972 => Some(ApiError::NoOtpSecret),
            433394 => Some(ApiError::MfaAlreadyEnabled),
            412228 => Some(ApiError::MfaInvalid),
            412629 => Some(ApiError::MfaRequired),
            413030 => Some(ApiError::LoginEmailOnly),
            413431 => Some(ApiError::LoginIssues),
            1032 => Some(ApiError::UserPasswordShort),
            1033 => Some(ApiError::UserPasswordBlacklisted),
            1034 => Some(ApiError::UserPasswordSame),
            1035 => Some(ApiError::UserEmailInvalid),
            1036 => Some(ApiError::UserUsernameDiffersFromEmail),
            1037 => Some(ApiError::UserUsernameInvalidCharacters),
            1038 => Some(ApiError::UserPinInvalid),
            1039 => Some(ApiError::UserPasswordConfirmationConfirmation),
            419120 => Some(ApiError::InvalidPassword),
            419523 => Some(ApiError::InvalidPin),
            419926 => Some(ApiError::MissingRole),
            420329 => Some(ApiError::Forbidden),
            420732 => Some(ApiError::NeedsPassword),
            421135 => Some(ApiError::InvalidPasswordOrVerificationCode),
            421538 => Some(ApiError::NeedsPasswordAndVerificationCode),
            441834 => Some(ApiError::InvalidUsername),
            442256 => Some(ApiError::UnavailableUsername),
            442678 => Some(ApiError::NeedsNonce),
            443100 => Some(ApiError::PaymentError),
            443522 => Some(ApiError::SubscriptionError),
            430268 => Some(ApiError::AlreadySubscribed),
            424359 => Some(ApiError::ProInstallerOnly),
            424762 => Some(ApiError::InvalidPlan),
            445210 => Some(ApiError::InvalidToken),
            431904 => Some(ApiError::CodeAlreadyUsed),
            446054 => Some(ApiError::InvalidProviderToken),
            446476 => Some(ApiError::NoEmailProvider),
            433131 => Some(ApiError::ProviderAlreadyLinked),
            447320 => Some(ApiError::CloudServerError),
            435010 => Some(ApiError::ProviderRevoked),
            1062 => Some(ApiError::UserResetPasswordTokenInvalid),
            1063 => Some(ApiError::UserPasswordInvalid),
            435176 => Some(ApiError::ProviderAccountAlreadyLinked),
            449430 => Some(ApiError::InvalidSettingsFormat),
            449852 => Some(ApiError::InvalidSubscriptionTime),
            450274 => Some(ApiError::PlexpassCanceled),
            430404 => Some(ApiError::ForbiddenDevice),
            451118 => Some(ApiError::CodeExpired),
            451540 => Some(ApiError::ProviderNetworkError),
            1071 => Some(ApiError::WebhookUrlInvalid),
            452384 => Some(ApiError::InvalidAnonymousToken),
            429200 => Some(ApiError::EnablingHttpsWithoutCertificate),
            453228 => Some(ApiError::RequirementsForSubscriptionNotMet),
            453650 => Some(ApiError::InvalidUserData),
            454072 => Some(ApiError::PlanConflicts),
            454494 => Some(ApiError::InvalidConsentFormat),
            435240 => Some(ApiError::ServerTokenRequired),
            445810 => Some(ApiError::PromoCodeTaken),
            843156 => Some(ApiError::GenericValidationError),
            799600 => Some(ApiError::GenericRequestError),
            509539 => Some(ApiError::ServiceUnavailable),
            430440 => Some(ApiError::InvalidCsr),
            _ => None,
        };
        proof {
            match found {
                Some(e) => {
                    lemma_lookup_code(e);
                },
                None => {
                    assert forall|e: ApiError| #[trigger] e.spec_code() != key by {
                        lemma_code_listed(e);
                    }
                },
            }
        }
        found
    }

    /// Resolves the code and status of a wire error. The key is the code
    /// where there is no status, else the product of the two, taken as a
    /// plain number: a product that no catalog entry equals resolves to
    /// nothing, however large it is.
    pub fn resolve(code: u32, status: Option<u32>) -> (r: Option<ApiError>)
        ensures
            r == Self::spec_resolve(code, status),
    {
        match status {
            Some(s) => {
                assert(0 <= code * s <= 0xffff_ffff * 0xffff_ffff) by (nonlinear_arith)
                    requires
                        0 <= code <= 0xffff_ffff,
                        0 <= s <= 0xffff_ffff,
                ;
                let key: u64 = (code as u64) * (s as u64);
                Self::from_key(key)
            },
            None => Self::from_key(code as u64),
        }
    }
}

/// No two variants share a lookup key.
pub proof fn lemma_code_injective(a: ApiError, b: ApiError)
    requires
        a.spec_code() == b.spec_code(),
    ensures
        a == b,
{
}

/// Every variant's key is one of the catalog's keys.
proof fn lemma_code_listed(e: ApiError)
    ensures
        e.spec_code() == 400000
            || e.spec_code() == 401401
            || e.spec_code() == 404808
            || e.spec_code() == 430287
            || e.spec_code() == 401600
            || e.spec_code() == 407025
            || e.spec_code() == 408436
            || e.spec_code() == 503500
            || e.spec_code() == 425376
            || e.spec_code() == 406627
            || e.spec_code() == 1010
            || e.spec_code() == 1011
            || e.spec_code() == 407836
            || e.spec_code() == 408239
            || e.spec_code() == 427908
            || e.spec_code() == 409045
            || e.spec_code() == 1020
            || e.spec_code() == 432550
            || e.spec_code() == 432972
            || e.spec_code() == 433394
            || e.spec_code() == 412228
            || e.spec_code() == 412629
            || e.spec_code() == 413030
            || e.spec_code() == 413431
            || e.spec_code() == 1032
            || e.spec_code() == 1033
            || e.spec_code() == 1034
            || e.spec_code() == 1035
            || e.spec_code() == 1036
            || e.spec_code() == 1037
            || e.spec_code() == 1038
            || e.spec_code() == 1039
            || e.spec_code() == 419120
            || e.spec_code() == 419523
            || e.spec_code() == 419926
            || e.spec_code() == 420329
            || e.spec_code() == 420732
            || e.spec_code() == 421135
            || e.spec_code() == 421538
            || e.spec_code() == 441834
            || e.spec_code() == 442256
            || e.spec_code() == 442678
            || e.spec_code() == 443100
            || e.spec_code() == 443522
            || e.spec_code() == 430268
            || e.spec_code() == 424359
            || e.spec_code() == 424762
            || e.spec_code() == 445210
            || e.spec_code() == 431904
            || e.spec_code() == 446054
            || e.spec_code() == 446476
            || e.spec_code() == 433131
            || e.spec_code() == 447320
            || e.spec_code() == 435010
            || e.spec_code() == 1062
            || e.spec_code() == 1063
            || e.spec_code() == 435176
            || e.spec_code() == 449430
            || e.spec_code() == 449852
            || e.spec_code() == 450274
            || e.spec_code() == 430404
            || e.spec_code() == 451118
            || e.spec_code() == 451540
            || e.spec_code() == 1071
            || e.spec_code() == 452384
            || e.spec_code() == 429200
            || e.spec_code() == 453228
            || e.spec_code() == 453650
            || e.spec_code() == 454072
            || e.spec_code() == 454494
            || e.spec_code() == 435240
            || e.spec_code() == 445810
            || e.spec_code() == 843156
            || e.spec_code() == 799600
            || e.spec_code() == 509539
            || e.spec_code() == 430440,
{
}

/// Looking up a variant's own key gives that variant back.
pub proof fn lemma_lookup_code(e: ApiError)
    ensures
        ApiError::spec_lookup(e.spec_code() as int) == Some(e),
{
    let key = e.spec_code() as int;
    let found = choose|x: ApiError| #[trigger] x.spec_code() == key;
    lemma_code_injective(found, e);
}

/// A wire error resolves to a variant exactly when its key is that variant's
/// key: its code where it has no status, else its code times its status.
pub proof fn lemma_resolve_exact(code: u32, status: Option<u32>, e: ApiError)
    ensures
        ApiError::spec_resolve(code, status) == Some(e) <==> e.spec_code() == wire_key(
            code,
            status,
        ),
        status is None ==> wire_key(code, status) == code,
        status matches Some(s) ==> wire_key(code, status) == code * s,
{
    lemma_lookup_exact(wire_key(code, status), e);
}

/// A key resolves to a variant exactly when it is that variant's key.
pub proof fn lemma_lookup_exact(key: int, e: ApiError)
    ensures
        ApiError::spec_lookup(key) == Some(e) <==> e.spec_code() == key,
{
    if e.spec_code() == key {
        lemma_lookup_code(e);
    }
}

impl TryFrom<&PlexTvError> for ApiError {
    type Error = ();

    fn try_from(value: &PlexTvError) -> (r: Result<Self, ()>) {
        match ApiError::resolve(value.code, value.status) {
            Some(e) => Ok(e),
            None => Err(()),
        }
    }
}

impl vstd::std_specs::convert::TryFromSpecImpl<&PlexTvError> for ApiError {
    open spec fn obeys_try_from_spec() -> bool {
        true
    }

    open spec fn try_from_spec(value: &PlexTvError) -> Result<Self, ()> {
        match ApiError::spec_resolve(value.code, value.status) {
            Some(e) => Ok(e),
            None => Err(()),
        }
    }
}

/// The errors of one response that the catalog knows, in wire order.
#[derive(Debug, Default)]
pub struct ApiErrors {
    pub errors: Vec<ApiError>,
}

/// The resolvable items of a wire sequence, each resolved, in the order in
/// which they came; items that the catalog does not know are left out.
pub open spec fn resolve_seq(wire: Seq<PlexTvError>) -> Seq<ApiError>
    decreases wire.len(),
{
    if wire.len() == 0 {
        Seq::empty()
    } else {
        let front = resolve_seq(wire.drop_last());
        match ApiError::spec_resolve(wire.last().code, wire.last().status) {
            Some(e) => front.push(e),
            None => front,
        }
    }
}

/// How many items of a wire sequence the catalog does not know.
pub open spec fn dropped_count(wire: Seq<PlexTvError>) -> nat
    decreases wire.len(),
{
    if wire.len() == 0 {
        0
    } else {
        let front = dropped_count(wire.drop_last());
        match ApiError::spec_resolve(wire.last().code, wire.last().status) {
            Some(_) => front,
            None => front + 1,
        }
    }
}

impl ApiErrors {
    /// Resolves every item of an envelope and keeps those that resolve.
    /// One unknown item never hides the others.
    pub fn from_wire(wire: &PlexTvErrors) -> (r: ApiErrors)
        ensures
            r.errors@ == resolve_seq(wire.errors@),
    {
        let mut errors: Vec<ApiError> = Vec::new();
        let mut i: usize = 0;
        while i < wire.errors.len()
            invariant
                i <= wire.errors.len(),
                errors@ == resolve_seq(wire.errors@.take(i as int)),
            decreases wire.errors.len() - i,
        {
            let item = &wire.errors[i];
            proof {
                let next = wire.errors@.take(i + 1);
                assert(next.drop_last() == wire.errors@.take(i as int));
            }
            match ApiError::resolve(item.code, item.status) {
                Some(e) => {
                    errors.push(e);
                },
                None => {},
            }
            i += 1;
        }
        assert(wire.errors@.take(i as int) == wire.errors@);
        ApiErrors { errors }
    }

    /// Whether `error` is among the errors held.
    pub fn contains(&self, error: ApiError) -> (r: bool)
        ensures
            r == self.errors@.contains(error),
    {
        let mut i: usize = 0;
        while i < self.errors.len()
            invariant
                i <= self.errors.len(),
                forall|j: int| 0 <= j < i ==> self.errors@[j] != error,
            decreases self.errors.len() - i,
        {
            if self.errors[i] == error {
                return true;
            }
            i += 1;
        }
        false
    }
}

impl core::ops::Deref for ApiErrors {
    type Target = Vec<ApiError>;

    fn deref(&self) -> (r: &Vec<ApiError>)
        ensures
            r == &self.errors,
    {
        &self.errors
    }
}

impl core::ops::Deref for PlexTvErrors {
    type Target = Vec<PlexTvError>;

    fn deref(&self) -> (r: &Vec<PlexTvError>)
        ensures
            r == &self.errors,
    {
        &self.errors
    }
}

/// Resolving keeps or drops each item: the two counts add up to the
/// envelope's length.
pub proof fn lemma_resolve_seq_len(wire: Seq<PlexTvError>)
    ensures
        resolve_seq(wire).len() + dropped_count(wire) == wire.len(),
    decreases wire.len(),
{
    if wire.len() > 0 {
        lemma_resolve_seq_len(wire.drop_last());
    }
}

/// Every resolved error comes from an item of the envelope with that key.
pub proof fn lemma_resolve_seq_sound(wire: Seq<PlexTvError>, k: int)
    requires
        0 <= k < resolve_seq(wire).len(),
    ensures
        exists|i: int|
            0 <= i < wire.len() && #[trigger] wire_key(wire[i].code, wire[i].status)
                == resolve_seq(wire)[k].spec_code(),
    decreases wire.len(),
{
    let front = resolve_seq(wire.drop_last());
    let last = wire.last();
    if k < front.len() {
        lemma_resolve_seq_sound(wire.drop_last(), k);
        let i = choose|i: int|
            0 <= i < wire.drop_last().len() && #[trigger] wire_key(
                wire.drop_last()[i].code,
                wire.drop_last()[i].status,
            ) == front[k].spec_code();
    } else {
        let e = resolve_seq(wire)[k];
        lemma_lookup_exact(wire_key(last.code, last.status), e);
    }
}

/// Every item of the envelope that the catalog knows is among the resolved
/// errors.
pub proof fn lemma_resolve_seq_complete(wire: Seq<PlexTvError>, i: int)
    requires
        0 <= i < wire.len(),
        ApiError::spec_resolve(wire[i].code, wire[i].status) is Some,
    ensures
        resolve_seq(wire).contains(ApiError::spec_resolve(wire[i].code, wire[i].status)->Some_0),
    decreases wire.len(),
{
    let front = resolve_seq(wire.drop_last());
    let e = ApiError::spec_resolve(wire[i].code, wire[i].status)->Some_0;
    if i < wire.len() - 1 {
        lemma_resolve_seq_complete(wire.drop_last(), i);
        let k = choose|k: int| 0 <= k < front.len() && front[k] == e;
        assert(resolve_seq(wire)[k] == e);
    } else {
        assert(resolve_seq(wire)[front.len() as int] == e);
    }
}

/// A failure inside the client itself, not reported by the service.
#[derive(Debug)]
pub enum InternalClientError {
    UnparseableService(String),
}

impl InternalClientError {
    pub open spec fn spec_message(self) -> Seq<char> {
        match self {
            InternalClientError::UnparseableService(item) => "Could not parse service item "@
                + item@,
        }
    }

    /// The human-readable message of this failure.
    pub fn message(&self) -> (m: String)
        ensures
            m@ == self.spec_message(),
    {
        match self {
            InternalClientError::UnparseableService(item) => String::from_str(
                "Could not parse service item ",
            ).concat(item.as_str()),
        }
    }
}

} // verus!
