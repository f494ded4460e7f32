use vstd::prelude::*;

use crate::args::Order;
use crate::models::comment::Comment;
use crate::models::comment_thread::CommentThread;
use crate::ordering::{order_replies, ordered_replies};
use crate::paginator::{Paginator, Resource};

verus! {

/// How the replies of a thread are to be shown.
#[derive(Debug)]
pub enum ReplyPlan {
    /// The thread has no replies.
    Nothing,
    /// The embedded replies were complete; here they are, in order.
    Ready(Vec<Comment>),
    /// The embedded replies were a part only: walk this paginator for them.
    Fetch(Paginator),
}

/// The embedded replies of `thread` are all its replies: the API embedded
/// as many as the thread reports.
pub open spec fn replies_complete(thread: CommentThread) -> bool {
    thread.replies is Some && thread.replies->Some_0.comments@.len()
        == thread.snippet.total_reply_count as nat
}

/// Decides how the replies of `thread` are shown under `order`: none where it
/// embeds none; the embedded ones, ordered, where they are complete; else a
/// fresh paginator over the thread's replies, which fetches them all.
pub fn resolve_replies(thread: CommentThread, order: Order, api_key: String) -> (r: ReplyPlan)
    ensures
        thread.replies is None ==> r is Nothing,
        replies_complete(thread) ==> (r matches ReplyPlan::Ready(v) && v@ == ordered_replies(
            order,
            thread.replies->Some_0.comments@,
        )),
        thread.replies is Some && !replies_complete(thread) ==> r == ReplyPlan::Fetch(
            Paginator {
                resource: Resource::Replies { parent_id: thread.id },
                api_key,
                cursor: None,
                finished: false,
            },
        ),
{
    match thread.replies {
        None => ReplyPlan::Nothing,
        Some(replies) => {
            if replies.comments.len() == thread.snippet.total_reply_count as usize {
                ReplyPlan::Ready(order_replies(order, replies.comments))
            } else {
                ReplyPlan::Fetch(Paginator::replies(thread.id, api_key))
            }
        },
    }
}

} // verus!
