pub mod auth;
pub mod flow;
pub mod product;
pub mod sms;
pub mod laws;
pub mod answers;
