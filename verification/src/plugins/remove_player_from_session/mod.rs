pub mod controller;
pub mod dto;
pub mod error;
pub mod use_case;
