use vstd::prelude::*;
use crate::app::utils::code::{is_sid, sid_creator};
use crate::app::utils::time::formatted_time;

verus! {

/// A seller's channel.
pub struct Channel {
    pub sid: String,
    pub channel_address: String,
    pub creator_sid: String,
}

/// A post in a channel: text, images, or both.
pub struct Post {
    pub sid: String,
    pub channel_sid: String,
    pub content: Option<String>,
    pub images: Option<Vec<String>>,
    pub created_at: String,
    pub edited: bool,
}

impl Post {
    /// A new, unedited post created at the time `created_at`, with a fresh 35-character
    /// identifier.
    pub fn new_at(content: Option<String>, images: Option<Vec<String>>, channel_sid: String, created_at: String) -> (p: Self)
        ensures
            is_sid(p.sid@, 35),
            p.channel_sid == channel_sid,
            p.content == content,
            p.images == images,
            p.created_at == created_at,
            !p.edited,
    {
        let sid = sid_creator(35);
        Self { sid, channel_sid, content, images, created_at, edited: false }
    }

    /// A new, unedited post created now (the clock's time, as `formatted_time` writes it),
    /// with a fresh 35-character identifier.
    pub fn new(content: Option<String>, images: Option<Vec<String>>, channel_sid: String) -> (p: Self)
        ensures
            is_sid(p.sid@, 35),
            p.channel_sid == channel_sid,
            p.content == content,
            p.images == images,
            !p.edited,
    {
        Self::new_at(content, images, channel_sid, formatted_time())
    }
}

/// Why a post was restricted.
#[derive(Default)]
pub enum Restriction {
    #[default]
    Unrestricted,
    Offensive,
    Scam,
    Destructive,
}

} // verus!
