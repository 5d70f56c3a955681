//! The rules of the sign-up and log-in service that stand on their own.

pub mod login;
pub mod signup;
pub mod vk;
