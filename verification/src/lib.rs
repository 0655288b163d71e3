//! Library of the Kooche marketplace back end: the records it stores, the checks it makes on
//! what users send, its tokens and verification codes, and the decisions of each request
//! handler, written as state machines that a server drives.
pub mod app;

pub use app::utils::time::formatted_time;
