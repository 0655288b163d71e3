pub mod code;
pub mod jwt;
pub mod text;
pub mod time;
pub mod password;
