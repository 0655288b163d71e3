//! Text messages sent through the SMS gateway.
use vstd::prelude::*;

verus! {

/// A message to send: its text, the mobile numbers it goes to, and the sender line.
#[derive(Debug)]
pub struct Message {
    pub message_text: String,
    pub mobiles: Vec<String>,
    pub line_number: String,
}

impl Message {
    /// A message of the given text to one mobile number, sent from `line_number` (the
    /// gateway line the server is configured with).
    pub fn new(message: String, mobile_number: String, line_number: String) -> (m: Self)
        ensures
            m.message_text == message,
            m.mobiles@ == seq![mobile_number],
            m.line_number == line_number,
    {
        let mut mobiles = Vec::new();
        mobiles.push(mobile_number);
        Self { message_text: message, mobiles, line_number }
    }

    /// What sending came to, given the `status` field of the gateway's reply (`None` where
    /// the request failed or the reply could not be read): sent only on status 1.
    pub fn outcome_of_reply(status: Option<u8>) -> (r: Result<(), String>)
        ensures
            r is Ok <==> status == Some(1u8),
            r matches Err(e) ==> e@ == "failed to send message!"@,
    {
        match status {
            Some(1) => Ok(()),
            _ => Err(String::from_str("failed to send message!")),
        }
    }
}

} // verus!
