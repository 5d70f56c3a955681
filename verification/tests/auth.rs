use orkestra::auth::login::{LoginData, LoginError};
use orkestra::auth::signup::{check_signup, name_char, valid_username, SignupData, SignupError};
use orkestra::auth::vk::{VkAuthError, VkError};

#[test]
fn user_names_of_letters_digits_and_underscores_are_valid() {
    assert!(valid_username("alice"));
    assert!(valid_username("Alice_42"));
    assert!(valid_username("_"));
    assert!(valid_username("0"));
    assert!(valid_username("azAZ09_"));
}

#[test]
fn empty_user_name_is_valid() {
    assert!(valid_username(""));
}

#[test]
fn user_names_with_other_characters_are_not_valid() {
    assert!(!valid_username("alice bob"));
    assert!(!valid_username("alice-bob"));
    assert!(!valid_username("alice!"));
    assert!(!valid_username("é"));
    assert!(!valid_username("alicé"));
    assert!(!valid_username("{user}"));
    assert!(!valid_username("a@b"));
    assert!(!valid_username("tab\t"));
}

#[test]
fn name_characters_at_the_edges_of_the_ranges() {
    for c in ['a', 'z', 'A', 'Z', '0', '9', '_'] {
        assert!(name_char(c));
    }
    for c in ['`', '{', '@', '[', '/', ':', ' ', '-', 'é'] {
        assert!(!name_char(c));
    }
}

#[test]
fn sign_up_is_checked_by_the_user_name() {
    let good = SignupData { username: "alice_1".to_string(), password: "pw".to_string() };
    assert_eq!(check_signup(&good), Ok(()));
    let bad = SignupData { username: "alice 1".to_string(), password: "pw".to_string() };
    assert_eq!(check_signup(&bad), Err(SignupError::InvalidUsername));
}

#[test]
fn sign_up_error_messages() {
    assert_eq!(SignupError::InvalidUsername.message(), "Unknown user");
    assert_eq!(SignupError::InvalidPassword.message(), "Wrong password");
    assert_eq!(SignupError::AlreadyExists.message(), "User already exists");
}

#[test]
fn log_in_error_messages() {
    assert_eq!(LoginError::UnknownUser.message(), "Unknown user");
    assert_eq!(LoginError::WrongPassword.message(), "Wrong password");
    let data = LoginData { username: "alice".to_string(), password: "pw".to_string() };
    assert_eq!(data.username, "alice");
}

#[test]
fn platform_error_codes_have_their_reasons() {
    let error = |errcode: i64| VkError { errcode, errmsg: "gas_invalid_sign".to_string() };
    assert_eq!(
        VkAuthError::from_error(error(0)),
        VkAuthError::InvalidUserOrSign("gas_invalid_sign".to_string())
    );
    assert_eq!(VkAuthError::from_error(error(10)), VkAuthError::InvalidHashParameter);
    assert_eq!(VkAuthError::from_error(error(20)), VkAuthError::WhitelistError);
    assert_eq!(VkAuthError::from_error(error(30)), VkAuthError::UserWhitelistError);
    assert_eq!(
        VkAuthError::from_error(error(40)),
        VkAuthError::UserIsBanned("gas_invalid_sign".to_string())
    );
    assert_eq!(VkAuthError::from_error(error(50)), VkAuthError::NoPayment);
}
