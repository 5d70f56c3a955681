use vstd::prelude::*;

verus! {

/// The parameters of a sign-in through the game platform.
#[derive(Debug)]
pub struct VkAuthData {
    pub uid: String,
    pub hash: String,
}

/// The parameters of a profile lookup.
#[derive(Debug)]
pub struct UserProfileData {
    pub uid: String,
}

/// What a profile lookup answers.
#[derive(Debug)]
pub struct UserProfileResponse {
    pub nickname: String,
}

/// A user's profile on the game platform.
#[derive(Debug)]
pub struct VkUserProfileData {
    pub uid: u64,
    pub nick: String,
    pub avatar: String,
    pub birthyear: String,
    pub sex: String,
    pub slug: String,
}

/// An error as the game platform reports it: a code and a message.
#[derive(Debug, PartialEq, Eq)]
pub struct VkError {
    pub errcode: i64,
    pub errmsg: String,
}

/// Why a sign-in through the game platform was refused.
#[derive(Debug, PartialEq, Eq)]
pub enum VkAuthError {
    InternalError,
    InvalidUserOrSign(String),
    InvalidHashParameter,
    WhitelistError,
    UserWhitelistError,
    UserIsBanned(String),
    NoPayment,
}

/// The codes that the game platform reports.
pub open spec fn is_known_errcode(code: i64) -> bool {
    code == 0 || code == 10 || code == 20 || code == 30 || code == 40 || code == 50
}

impl VkAuthError {
    /// The reason that stands for a reported error; the codes 0 and 40 carry
    /// the platform's message with them.
    pub fn from_error(error: VkError) -> (reason: VkAuthError)
        requires
            is_known_errcode(error.errcode),
        ensures
            match reason {
                VkAuthError::InternalError => false,
                VkAuthError::InvalidUserOrSign(message) => error.errcode == 0 && message
                    == error.errmsg,
                VkAuthError::InvalidHashParameter => error.errcode == 10,
                VkAuthError::WhitelistError => error.errcode == 20,
                VkAuthError::UserWhitelistError => error.errcode == 30,
                VkAuthError::UserIsBanned(message) => error.errcode == 40 && message
                    == error.errmsg,
                VkAuthError::NoPayment => error.errcode == 50,
            },
    {
        if error.errcode == 0 {
            VkAuthError::InvalidUserOrSign(error.errmsg)
        } else if error.errcode == 10 {
            VkAuthError::InvalidHashParameter
        } else if error.errcode == 20 {
            VkAuthError::WhitelistError
        } else if error.errcode == 30 {
            VkAuthError::UserWhitelistError
        } else if error.errcode == 40 {
            VkAuthError::UserIsBanned(error.errmsg)
        } else {
            VkAuthError::NoPayment
        }
    }
}

} // verus!
