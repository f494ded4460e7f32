use vstd::prelude::*;

use super::timestamp::Timestamp;

verus! {

/// One comment or reply.
#[derive(Clone, Debug)]
pub struct Comment {
    pub snippet: CommentSnippet,
}

#[derive(Clone, Debug)]
pub struct CommentSnippet {
    pub author_display_name: String,
    pub published_at: Timestamp,
    pub like_count: u32,
    pub text_display: String,
}

} // verus!
