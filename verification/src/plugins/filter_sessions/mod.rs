pub mod controller;
pub mod dto;
pub mod use_case;
