use plextvapi::errors::ApiError;
use plextvapi::errors::ApiErrors;
use plextvapi::errors::InternalClientError;
use plextvapi::errors::PlexTvError;
use plextvapi::errors::PlexTvErrors;

fn catalog() -> Vec<(u32, Option<u32>, ApiError, u32, &'static str)> {
    vec![
        (1000, Some(400), ApiError::ClientIdentifierMissing, 400000, "X-Plex-Client-Identifier is missing"),
        (1001, Some(401), ApiError::Unauthorized, 401401, "User could not be authenticated"),
        (1002, Some(404), ApiError::NotFound, 404808, "The requested resource or endpoint could not be found"),
        (1003, Some(429), ApiError::OverRateLimit, 430287, "API rate limit exceeded"),
        (1004, Some(400), ApiError::RequestValidationError, 401600, "The request was malformed, missed a required parameter or contained invalid values for them"),
        (1005, Some(405), ApiError::MethodNotAllowed, 407025, "The request method is not allowed for this endpoint"),
        (1006, Some(406), ApiError::NotAcceptable, 408436, "None"),
        (1007, Some(500), ApiError::InternalServerError, 503500, "Internal Server Error. Something went wrong on our end"),
        (1008, Some(422), ApiError::UnprocessableEntity, 425376, "The server could not perform the action required with the entity provided"),
        (1009, Some(403), ApiError::ForbiddenForRestrictedUsers, 406627, "Managed users aren't allowed to perform this action"),
        (1010, None, ApiError::Blank, 1010, "Required field cannot be blank"),
        (1011, None, ApiError::Taken, 1011, "The value provided for the field has already been taken"),
        (1012, Some(403), ApiError::ForbiddenForNonSubscribers, 407836, "You need a subscription to perform this action"),
        (1013, Some(403), ApiError::ForbiddenForAnonymousUsers, 408239, "You need to sign up to perform this action"),
        (1014, Some(422), ApiError::AlreadyExists, 427908, "Already Exists"),
        (1015, Some(403), ApiError::RequiresAnonymousUser, 409045, "Only Anonymous users can perform this action."),
        (1020, None, ApiError::PinNotFoundOrExpired, 1020, "Code not found or expired"),
        (1025, Some(422), ApiError::MfaNotEnabled, 432550, "Two-Factor authentication is not enabled yet"),
        (1026, Some(422), ApiError::NoOtpSecret, 432972, "The account has no OTP secret, please visit secret generation endpoint"),
        (1027, Some(422), ApiError::MfaAlreadyEnabled, 433394, "Two-Factor authentication already enabled"),
        (1028, Some(401), ApiError::MfaInvalid, 412228, "Invalid verification code"),
        (1029, Some(401), ApiError::MfaRequired, 412629, "Please enter the verification code"),
        (1030, Some(401), ApiError::LoginEmailOnly, 413030, "User could not be authenticated. This account only allows signing in with email address"),
        (1031, Some(401), ApiError::LoginIssues, 413431, "User could not be authenticated. This IP appears to be having trouble signing in to an account (detected repeated failures)"),
        (1032, None, ApiError::UserPasswordShort, 1032, "Password must be at least 8 characters long"),
        (1033, None, ApiError::UserPasswordBlacklisted, 1033, "Password not allowed (too weak)"),
        (1034, None, ApiError::UserPasswordSame, 1034, "Password cannot be the same as the username or email"),
        (1035, None, ApiError::UserEmailInvalid, 1035, "The value for email must be a valid email address"),
        (1036, None, ApiError::UserUsernameDiffersFromEmail, 1036, "A different email address cannot be used as username"),
        (1037, None, ApiError::UserUsernameInvalidCharacters, 1037, "The username includes invalid characters"),
        (1038, None, ApiError::UserPinInvalid, 1038, "PIN must be 4 digits"),
        (1039, None, ApiError::UserPasswordConfirmationConfirmation, 1039, "The password provided doesn't match the confirmation"),
        (1040, Some(403), ApiError::InvalidPassword, 419120, "A valid password is required to perform this action"),
        (1041, Some(403), ApiError::InvalidPin, 419523, "A valid PIN is required to perform this action"),
        (1042, Some(403), ApiError::MissingRole, 419926, "User is missing the required role to perform this action"),
        (1043, Some(403), ApiError::Forbidden, 420329, "This action is not available for this user"),
        (1044, Some(403), ApiError::NeedsPassword, 420732, "A valid password is needed to verify the new authentication provider."),
        (1045, Some(403), ApiError::InvalidPasswordOrVerificationCode, 421135, "A valid password and verification code are required to perform this action"),
        (1046, Some(403), ApiError::NeedsPasswordAndVerificationCode, 421538, "A valid password and verification code are required to verify the new authentication provider."),
        (1047, Some(422), ApiError::InvalidUsername, 441834, "The username is invalid."),
        (1048, Some(422), ApiError::UnavailableUsername, 442256, "The username is unavailable."),
        (1049, Some(422), ApiError::NeedsNonce, 442678, "A payment information nonce was not provided"),
        (1050, Some(422), ApiError::PaymentError, 443100, "An error happened processing the payment method"),
        (1051, Some(422), ApiError::SubscriptionError, 443522, "An error happened creating the subscription"),
        (1052, Some(409), ApiError::AlreadySubscribed, 430268, "An active subscription already exists for this user"),
        (1053, Some(403), ApiError::ProInstallerOnly, 424359, "This action is only available for Plex Professional Installers"),
        (1054, Some(403), ApiError::InvalidPlan, 424762, "The plan provided is not valid for this user"),
        (1055, Some(422), ApiError::InvalidToken, 445210, "The token provided doesn't correspond to a valid discount code"),
        (1056, Some(409), ApiError::CodeAlreadyUsed, 431904, "The user has already redeemed this discount"),
        (1057, Some(422), ApiError::InvalidProviderToken, 446054, "The provider token couldn't be validated with the provider"),
        (1058, Some(422), ApiError::NoEmailProvider, 446476, "The provider doesn't return an email address, please check the scope of the token."),
        (1059, Some(409), ApiError::ProviderAlreadyLinked, 433131, "The provider is already linked."),
        (1060, Some(422), ApiError::CloudServerError, 447320, "Something went wrong when attempting to manipulate the Cloud Server"),
        (1061, Some(410), ApiError::ProviderRevoked, 435010, "The auth token for this provider has been revoked by the user and is no longer valid"),
        (1062, None, ApiError::UserResetPasswordTokenInvalid, 1062, "The token is invalid, please request a new one"),
        (1063, None, ApiError::UserPasswordInvalid, 1063, "The password is not valid, please make sure its 8 characters long. If admin, it needs to be 10 characters long with at least 1 digit and a combination of lower and uppercase letters."),
        (1064, Some(409), ApiError::ProviderAccountAlreadyLinked, 435176, "The provider is already linked to another account."),
        (1065, Some(422), ApiError::InvalidSettingsFormat, 449430, "The settings format is not valid. Make sure is an array of hashes with id, type, value and hidden."),
        (1066, Some(422), ApiError::InvalidSubscriptionTime, 449852, "The subscription end time format is not valid."),
        (1067, Some(422), ApiError::PlexpassCanceled, 450274, "The Plex Pass subscription is currently set to cancel. You'll need to reactivate it before you can continue."),
        (1068, Some(403), ApiError::ForbiddenDevice, 430404, "This action is not available for this device."),
        (1069, Some(422), ApiError::CodeExpired, 451118, "The code provided expired"),
        (1070, Some(422), ApiError::ProviderNetworkError, 451540, "The request timed out or failed and the provider token couldn't be validated with the provider"),
        (1071, None, ApiError::WebhookUrlInvalid, 1071, "The value for url must be a valid URL"),
        (1072, Some(422), ApiError::InvalidAnonymousToken, 452384, "No suitable anonymous user found for the given anonymous token"),
        (1073, Some(400), ApiError::EnablingHttpsWithoutCertificate, 429200, "Unable to update a certificate. No certificate exists."),
        (1074, Some(422), ApiError::RequirementsForSubscriptionNotMet, 453228, "User lacks some requirements for this subscription."),
        (1075, Some(422), ApiError::InvalidUserData, 453650, "Unable to read user data."),
        (1076, Some(422), ApiError::PlanConflicts, 454072, "The plan provided conflicts with the user's other existing plan."),
        (1077, Some(422), ApiError::InvalidConsentFormat, 454494, "The consent format is not valid. Make sure language is a 2-letters string and vendors is an array of hashes with an integer id and a boolean consent."),
        (1080, Some(403), ApiError::ServerTokenRequired, 435240, "A valid server token is required to perform this action"),
        (1090, Some(409), ApiError::PromoCodeTaken, 445810, "Code already exists for that specific campaign"),
        (1998, Some(422), ApiError::GenericValidationError, 843156, "One or more validation errors prevented the action from being performed"),
        (1999, Some(400), ApiError::GenericRequestError, 799600, "None"),
        (1013, Some(503), ApiError::ServiceUnavailable, 509539, "The server cannot handle the request"),
        (1020, Some(422), ApiError::InvalidCsr, 430440, "Invalid CSR"),
    ]
}

fn wire(code: u32, status: Option<u32>) -> PlexTvError {
    PlexTvError { code, message: String::from("as sent"), status }
}

#[test]
fn catalog_has_every_variant_once() {
    let rows = catalog();
    assert_eq!(rows.len(), 76);
    for (i, a) in rows.iter().enumerate() {
        for b in rows.iter().skip(i + 1) {
            assert_ne!(a.2, b.2);
            assert_ne!(a.3, b.3);
        }
    }
}

#[test]
fn resolve_gives_the_documented_error_for_every_pair() {
    for (code, status, expected, _, _) in catalog() {
        assert_eq!(ApiError::resolve(code, status), Some(expected));
    }
}

#[test]
fn code_gives_the_key_of_every_variant() {
    for (_, _, error, key, _) in catalog() {
        assert_eq!(error.code(), key);
    }
}

#[test]
fn message_gives_the_text_of_every_variant() {
    for (_, _, error, _, message) in catalog() {
        assert_eq!(error.message(), message);
    }
}

#[test]
fn from_key_is_the_inverse_of_code() {
    for (_, _, error, key, _) in catalog() {
        assert_eq!(ApiError::from_key(key as u64), Some(error));
        assert_eq!(ApiError::from_key(error.code() as u64), Some(error));
    }
}

#[test]
fn resolves_unauthorized_from_code_and_status() {
    assert_eq!(ApiError::resolve(1001, Some(401)), Some(ApiError::Unauthorized));
    assert_eq!(ApiError::Unauthorized.code(), 401401);
    assert_eq!(ApiError::Unauthorized.message(), "User could not be authenticated");
}

#[test]
fn resolves_by_code_alone_without_status() {
    assert_eq!(ApiError::resolve(1020, None), Some(ApiError::PinNotFoundOrExpired));
    assert_eq!(ApiError::resolve(1010, None), Some(ApiError::Blank));
    assert_eq!(ApiError::resolve(1071, None), Some(ApiError::WebhookUrlInvalid));
}

#[test]
fn status_changes_what_a_code_means() {
    assert_eq!(ApiError::resolve(1020, None), Some(ApiError::PinNotFoundOrExpired));
    assert_eq!(ApiError::resolve(1020, Some(422)), Some(ApiError::InvalidCsr));
    assert_eq!(ApiError::resolve(1020, Some(404)), None);
    assert_eq!(ApiError::resolve(1001, None), None);
}

#[test]
fn a_key_given_as_code_alone_resolves_like_the_product() {
    assert_eq!(ApiError::resolve(401401, None), Some(ApiError::Unauthorized));
    assert_eq!(ApiError::resolve(401401, Some(1)), Some(ApiError::Unauthorized));
}

#[test]
fn unknown_codes_resolve_to_nothing() {
    assert_eq!(ApiError::resolve(0, None), None);
    assert_eq!(ApiError::resolve(0, Some(401)), None);
    assert_eq!(ApiError::resolve(1001, Some(0)), None);
    assert_eq!(ApiError::resolve(9999, Some(500)), None);
    assert_eq!(ApiError::resolve(1040, None), None);
    assert_eq!(ApiError::from_key(0), None);
    assert_eq!(ApiError::from_key(401402), None);
}

#[test]
fn a_product_beyond_32_bits_resolves_to_nothing() {
    assert_eq!(ApiError::resolve(u32::MAX, Some(u32::MAX)), None);
    assert_eq!(ApiError::resolve(65536, Some(65536)), None);
    assert_eq!(ApiError::resolve(4_294_968, Some(1000)), None);
    assert_eq!(2_147_484_153u32.wrapping_mul(2), 1010);
    assert_eq!(ApiError::resolve(2_147_484_153, Some(2)), None);
    assert_eq!(ApiError::from_key(u64::MAX), None);
    assert_eq!(ApiError::from_key(4_294_967_296 + 401401), None);
}

#[test]
fn try_from_resolves_a_wire_error() {
    let known = wire(1002, Some(404));
    assert_eq!(ApiError::try_from(&known), Ok(ApiError::NotFound));
    let unknown = wire(1002, Some(405));
    assert_eq!(ApiError::try_from(&unknown), Err(()));
    let bare = wire(1063, None);
    assert_eq!(ApiError::try_from(&bare), Ok(ApiError::UserPasswordInvalid));
}

#[test]
fn from_wire_keeps_the_resolvable_items_in_order() {
    let envelope = PlexTvErrors {
        errors: vec![
            wire(1001, Some(401)),
            wire(31337, Some(418)),
            wire(1020, None),
            wire(5, None),
            wire(1003, Some(429)),
        ],
    };
    let errors = ApiErrors::from_wire(&envelope);
    assert_eq!(
        errors.errors,
        vec![ApiError::Unauthorized, ApiError::PinNotFoundOrExpired, ApiError::OverRateLimit]
    );
}

#[test]
fn from_wire_keeps_repeated_items() {
    let envelope = PlexTvErrors { errors: vec![wire(1010, None), wire(1010, None)] };
    let errors = ApiErrors::from_wire(&envelope);
    assert_eq!(errors.errors, vec![ApiError::Blank, ApiError::Blank]);
}

#[test]
fn from_wire_of_unknown_items_alone_is_empty() {
    let envelope = PlexTvErrors { errors: vec![wire(1, None), wire(2, Some(3))] };
    let errors = ApiErrors::from_wire(&envelope);
    assert!(errors.errors.is_empty());
}

#[test]
fn from_wire_of_an_empty_envelope_is_empty() {
    let envelope = PlexTvErrors { errors: vec![] };
    assert!(ApiErrors::from_wire(&envelope).errors.is_empty());
}

#[test]
fn from_wire_does_not_read_the_message() {
    let envelope = PlexTvErrors {
        errors: vec![PlexTvError {
            code: 1001,
            message: String::from("something else entirely"),
            status: Some(401),
        }],
    };
    assert_eq!(ApiErrors::from_wire(&envelope).errors, vec![ApiError::Unauthorized]);
}

#[test]
fn contains_finds_an_error_that_is_held() {
    let errors = ApiErrors { errors: vec![ApiError::Blank, ApiError::Unauthorized] };
    assert!(errors.contains(ApiError::Unauthorized));
    assert!(errors.contains(ApiError::Blank));
    assert!(!errors.contains(ApiError::NotFound));
    assert!(!ApiErrors { errors: vec![] }.contains(ApiError::Unauthorized));
}

#[test]
fn error_lists_deref_to_their_items() {
    let errors = ApiErrors { errors: vec![ApiError::Taken] };
    assert_eq!(errors.len(), 1);
    assert_eq!(errors[0], ApiError::Taken);
    let envelope = PlexTvErrors { errors: vec![wire(7, None), wire(8, None)] };
    assert_eq!(envelope.len(), 2);
    assert_eq!(envelope[1].code, 8);
    assert_eq!(envelope.iter().count(), 2);
}

#[test]
fn wire_errors_default_to_nothing() {
    let e = PlexTvError::default();
    assert_eq!(e.code, 0);
    assert_eq!(e.message, "");
    assert_eq!(e.status, None);
    assert!(PlexTvErrors::default().errors.is_empty());
    assert!(ApiErrors::default().errors.is_empty());
}

#[test]
fn internal_error_message_names_the_item() {
    let e = InternalClientError::UnparseableService(String::from("toaster"));
    assert_eq!(e.message(), "Could not parse service item toaster");
    let empty = InternalClientError::UnparseableService(String::new());
    assert_eq!(empty.message(), "Could not parse service item ");
}
