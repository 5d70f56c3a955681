pub mod server_cloner;
pub mod sesser;
