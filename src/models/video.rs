use vstd::prelude::*;

use super::timestamp::Timestamp;

verus! {

#[derive(Debug)]
pub struct Video {
    pub snippet: Snippet,
    pub statistics: Statistics,
}

#[derive(Debug)]
pub struct Snippet {
    pub title: String,
    pub channel_title: String,
    pub description: String,
    pub published_at: Timestamp,
}

#[derive(Debug)]
pub struct Statistics {
    pub view_count: String,
    pub like_count: String,
    pub comment_count: String,
}

} // verus!
