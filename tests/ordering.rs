use youtube_comment_viewer::args::Order;
use youtube_comment_viewer::models::comment::{Comment, CommentSnippet};
use youtube_comment_viewer::models::comment_thread::{CommentThread, Snippet};
use youtube_comment_viewer::models::timestamp::Timestamp;
use youtube_comment_viewer::ordering::{
    order_fetched_replies, order_replies, order_threads, stable_sort, streams_fetched_replies,
    streams_threads, SortKey,
};

fn comment(author: &str, likes: u32, secs: i64) -> Comment {
    Comment {
        snippet: CommentSnippet {
            author_display_name: author.to_string(),
            published_at: Timestamp { secs, nanos: 0 },
            like_count: likes,
            text_display: format!("text of {}", author),
        },
    }
}

fn thread(author: &str, likes: u32, secs: i64) -> CommentThread {
    CommentThread {
        id: format!("id-{}", author),
        snippet: Snippet { top_level_comment: comment(author, likes, secs), total_reply_count: 0 },
        replies: None,
    }
}

fn authors_of_threads(v: &[CommentThread]) -> Vec<String> {
    v.iter().map(|t| t.snippet.top_level_comment.snippet.author_display_name.clone()).collect()
}

fn authors(v: &[Comment]) -> Vec<String> {
    v.iter().map(|c| c.snippet.author_display_name.clone()).collect()
}

#[test]
fn like_order_puts_most_liked_first_and_newest_among_ties() {
    let threads = vec![thread("a", 5, 100), thread("b", 10, 200), thread("c", 5, 300)];
    let r = order_threads(Order::Like, threads);
    assert_eq!(authors_of_threads(&r), vec!["b", "c", "a"]);
}

#[test]
fn old_order_is_ascending_by_time_whatever_the_likes() {
    let threads = vec![thread("c", 1, 300), thread("a", 50, 100), thread("b", 10, 200)];
    let r = order_threads(Order::Old, threads);
    assert_eq!(authors_of_threads(&r), vec!["a", "b", "c"]);
}

#[test]
fn streaming_orders_keep_arrival_order_of_threads() {
    for order in [Order::Default, Order::New, Order::Peek] {
        let threads = vec![thread("c", 1, 300), thread("a", 50, 100), thread("b", 10, 200)];
        let r = order_threads(order, threads);
        assert_eq!(authors_of_threads(&r), vec!["c", "a", "b"]);
        assert!(streams_threads(order));
    }
    assert!(!streams_threads(Order::Old));
    assert!(!streams_threads(Order::Like));
}

#[test]
fn sort_is_stable_and_like_order_reverses_equal_keys() {
    let v = vec![comment("x", 3, 100), comment("y", 3, 100), comment("z", 1, 100)];
    let sorted = stable_sort(SortKey::LikesThenTime, v);
    assert_eq!(authors(&sorted), vec!["z", "x", "y"]);
    let v = vec![comment("x", 3, 100), comment("y", 3, 100), comment("z", 1, 100)];
    let r = order_replies(Order::Like, v);
    assert_eq!(authors(&r), vec!["y", "x", "z"]);
}

#[test]
fn sort_by_time_compares_nanoseconds() {
    let mut early = comment("early", 0, 100);
    early.snippet.published_at.nanos = 5;
    let mut late = comment("late", 0, 100);
    late.snippet.published_at.nanos = 6;
    let r = stable_sort(SortKey::Time, vec![late, early]);
    assert_eq!(authors(&r), vec!["early", "late"]);
}

#[test]
fn reply_orders() {
    let make = || vec![comment("a", 5, 100), comment("b", 10, 200), comment("c", 5, 300)];
    assert_eq!(authors(&order_replies(Order::Old, make())), vec!["a", "b", "c"]);
    assert_eq!(authors(&order_replies(Order::New, make())), vec!["c", "b", "a"]);
    assert_eq!(authors(&order_replies(Order::Peek, make())), vec!["c", "b", "a"]);
    assert_eq!(authors(&order_replies(Order::Default, make())), vec!["b", "c", "a"]);
    assert_eq!(authors(&order_replies(Order::Like, make())), vec!["b", "c", "a"]);
}

#[test]
fn fetched_replies_stream_under_new_and_peek() {
    let make = || vec![comment("a", 5, 100), comment("b", 10, 200), comment("c", 5, 300)];
    assert_eq!(authors(&order_fetched_replies(Order::New, make())), vec!["a", "b", "c"]);
    assert_eq!(authors(&order_fetched_replies(Order::Peek, make())), vec!["a", "b", "c"]);
    assert_eq!(authors(&order_fetched_replies(Order::Like, make())), vec!["b", "c", "a"]);
    assert_eq!(authors(&order_fetched_replies(Order::Old, make())), vec!["a", "b", "c"]);
    assert!(streams_fetched_replies(Order::New));
    assert!(!streams_fetched_replies(Order::Default));
}

#[test]
fn empty_lists_stay_empty() {
    assert!(order_threads(Order::Like, vec![]).is_empty());
    assert!(order_replies(Order::Old, vec![]).is_empty());
}
