use vstd::prelude::*;

use super::comment::Comment;

verus! {

/// A top-level comment with the replies that the API embedded in it.
#[derive(Debug)]
pub struct CommentThread {
    pub id: String,
    pub snippet: Snippet,
    pub replies: Option<Replies>,
}

#[derive(Debug)]
pub struct Snippet {
    pub top_level_comment: Comment,
    /// The number of replies the thread has, as the API reports it.
    pub total_reply_count: u32,
}

/// A prefix of a thread's replies, embedded by the API.
#[derive(Debug)]
pub struct Replies {
    pub comments: Vec<Comment>,
}

} // verus!
