use vstd::prelude::*;

use crate::args::Order;
use crate::models::comment::Comment;
use crate::models::comment_thread::CommentThread;
use crate::models::timestamp::Timestamp;

verus! {

broadcast use vstd::seq_lib::group_seq_properties;

/// A record that can be ranked by its like count and publish time.
pub trait Ranked: Sized {
    spec fn rank_likes(&self) -> u32;

    spec fn rank_time(&self) -> Timestamp;

    fn likes(&self) -> (r: u32)
        ensures
            r == self.rank_likes(),
    ;

    fn published(&self) -> (r: Timestamp)
        ensures
            r == self.rank_time(),
    ;
}

impl Ranked for Comment {
    open spec fn rank_likes(&self) -> u32 {
        self.snippet.like_count
    }

    open spec fn rank_time(&self) -> Timestamp {
        self.snippet.published_at
    }

    fn likes(&self) -> (r: u32) {
        self.snippet.like_count
    }

    fn published(&self) -> (r: Timestamp) {
        self.snippet.published_at
    }
}

/// A thread ranks as its top-level comment.
impl Ranked for CommentThread {
    open spec fn rank_likes(&self) -> u32 {
        self.snippet.top_level_comment.snippet.like_count
    }

    open spec fn rank_time(&self) -> Timestamp {
        self.snippet.top_level_comment.snippet.published_at
    }

    fn likes(&self) -> (r: u32) {
        self.snippet.top_level_comment.snippet.like_count
    }

    fn published(&self) -> (r: Timestamp) {
        self.snippet.top_level_comment.snippet.published_at
    }
}

/// The key a sort compares.
#[derive(Clone, Copy, Debug, PartialEq, Eq, Structural)]
pub enum SortKey {
    /// The publish time.
    Time,
    /// The pair (like count, publish time), compared lexicographically.
    LikesThenTime,
}

/// `a` comes no later than `b` in ascending order of key `k`.
pub open spec fn key_le<T: Ranked>(k: SortKey, a: T, b: T) -> bool {
    match k {
        SortKey::Time => a.rank_time().spec_not_after(b.rank_time()),
        SortKey::LikesThenTime => a.rank_likes() < b.rank_likes() || (a.rank_likes()
            == b.rank_likes() && a.rank_time().spec_not_after(b.rank_time())),
    }
}

/// Inserts `x` into `t` before the first element that it does not exceed.
pub open spec fn insert_low<T: Ranked>(k: SortKey, x: T, t: Seq<T>) -> Seq<T>
    decreases t.len(),
{
    if t.len() == 0 {
        seq![x]
    } else if key_le(k, x, t[0]) {
        seq![x] + t
    } else {
        seq![t[0]] + insert_low(k, x, t.drop_first())
    }
}

/// The stable ascending sort of `s` by key `k`: elements with equal keys keep
/// their relative order.
pub open spec fn sorted_by<T: Ranked>(k: SortKey, s: Seq<T>) -> Seq<T>
    decreases s.len(),
{
    if s.len() == 0 {
        s
    } else {
        insert_low(k, s[0], sorted_by(k, s.drop_first()))
    }
}

/// Every element of `s` comes no later than those after it.
pub open spec fn is_sorted_by<T: Ranked>(k: SortKey, s: Seq<T>) -> bool {
    forall|i: int, j: int| 0 <= i < j < s.len() ==> key_le(k, #[trigger] s[i], #[trigger] s[j])
}

/// The order in which a buffered list of threads is shown.
pub open spec fn ordered_threads(order: Order, s: Seq<CommentThread>) -> Seq<CommentThread> {
    match order {
        Order::Old => sorted_by(SortKey::Time, s),
        Order::Like => sorted_by(SortKey::LikesThenTime, s).reverse(),
        _ => s,
    }
}

/// The order in which a complete list of replies is shown.
pub open spec fn ordered_replies(order: Order, s: Seq<Comment>) -> Seq<Comment> {
    match order {
        Order::Old => sorted_by(SortKey::Time, s),
        Order::Default | Order::Like => sorted_by(SortKey::LikesThenTime, s).reverse(),
        Order::New | Order::Peek => sorted_by(SortKey::Time, s).reverse(),
    }
}

/// The order in which replies fetched page by page are shown: as they arrive
/// where the order streams them, else as a complete list.
pub open spec fn ordered_fetched_replies(order: Order, s: Seq<Comment>) -> Seq<Comment> {
    match order {
        Order::New | Order::Peek => s,
        _ => ordered_replies(order, s),
    }
}

/// Whether the top-level threads under `order` are shown as they arrive,
/// rather than collected and sorted first.
pub open spec fn spec_streams_threads(order: Order) -> bool {
    order is Default || order is New || order is Peek
}

pub fn streams_threads(order: Order) -> (r: bool)
    ensures
        r == spec_streams_threads(order),
{
    match order {
        Order::Default | Order::New | Order::Peek => true,
        Order::Old | Order::Like => false,
    }
}

/// Whether replies fetched page by page under `order` are shown as they
/// arrive, rather than collected and sorted first.
pub open spec fn spec_streams_fetched_replies(order: Order) -> bool {
    order is New || order is Peek
}

pub fn streams_fetched_replies(order: Order) -> (r: bool)
    ensures
        r == spec_streams_fetched_replies(order),
{
    match order {
        Order::New | Order::Peek => true,
        _ => false,
    }
}

fn key_le_exec<T: Ranked>(k: SortKey, a: &T, b: &T) -> (r: bool)
    ensures
        r == key_le(k, *a, *b),
{
    let ta = a.published();
    match k {
        SortKey::Time => ta.not_after(&b.published()),
        SortKey::LikesThenTime => {
            let la = a.likes();
            let lb = b.likes();
            la < lb || (la == lb && ta.not_after(&b.published()))
        },
    }
}

proof fn lemma_insert_low_at<T: Ranked>(k: SortKey, x: T, t: Seq<T>, j: int)
    requires
        0 <= j <= t.len(),
        forall|m: int| 0 <= m < j ==> !key_le(k, x, #[trigger] t[m]),
        j < t.len() ==> key_le(k, x, t[j]),
    ensures
        insert_low(k, x, t) == t.insert(j, x),
    decreases t.len(),
{
    if t.len() == 0 {
        assert(insert_low(k, x, t) =~= t.insert(j, x));
    } else if j == 0 {
        assert(insert_low(k, x, t) =~= t.insert(j, x));
    } else {
        let rest = t.drop_first();
        assert forall|m: int| 0 <= m < j - 1 implies !key_le(k, x, #[trigger] rest[m]) by {
            assert(rest[m] == t[m + 1]);
        }
        lemma_insert_low_at(k, x, rest, j - 1);
        assert(insert_low(k, x, t) =~= t.insert(j, x));
    }
}

/// The position at which `insert_low` places `x`.
fn insertion_point<T: Ranked>(k: SortKey, t: &Vec<T>, x: &T) -> (j: usize)
    ensures
        j <= t@.len(),
        forall|m: int| 0 <= m < j ==> !key_le(k, *x, #[trigger] t@[m]),
        j < t@.len() ==> key_le(k, *x, t@[j as int]),
{
    let mut j: usize = 0;
    while j < t.len() && !key_le_exec(k, x, &t[j])
        invariant
            j <= t@.len(),
            forall|m: int| 0 <= m < j ==> !key_le(k, *x, #[trigger] t@[m]),
        decreases t@.len() - j,
    {
        j = j + 1;
    }
    j
}

/// Sorts `v` stably in ascending order of key `k`.
pub fn stable_sort<T: Ranked>(k: SortKey, v: Vec<T>) -> (r: Vec<T>)
    ensures
        r@ == sorted_by(k, v@),
{
    let ghost s = v@;
    let mut v = v;
    let mut out: Vec<T> = Vec::new();
    while v.len() > 0
        invariant
            v@.len() <= s.len(),
            v@ == s.subrange(0, v@.len() as int),
            out@ == sorted_by(k, s.subrange(v@.len() as int, s.len() as int)),
        decreases v@.len(),
    {
        let x = v.pop().unwrap();
        let ghost i = v@.len() as int;
        let j = insertion_point(k, &out, &x);
        proof {
            lemma_insert_low_at(k, x, out@, j as int);
            assert(s.subrange(i, s.len() as int).drop_first() =~= s.subrange(i + 1, s.len() as int));
            assert(v@ =~= s.subrange(0, i));
        }
        out.insert(j, x);
    }
    proof {
        assert(s.subrange(0, s.len() as int) =~= s);
    }
    out
}

/// Reverses `v`.
pub fn reversed<T>(v: Vec<T>) -> (r: Vec<T>)
    ensures
        r@ == v@.reverse(),
{
    let ghost s = v@;
    let mut v = v;
    let mut out: Vec<T> = Vec::new();
    while v.len() > 0
        invariant
            v@.len() <= s.len(),
            v@ == s.subrange(0, v@.len() as int),
            out@ =~= Seq::new((s.len() - v@.len()) as nat, |i: int| s[s.len() - 1 - i]),
        decreases v@.len(),
    {
        let x = v.pop().unwrap();
        proof {
            assert(v@ =~= s.subrange(0, v@.len() as int));
        }
        out.push(x);
    }
    assert(out@ =~= s.reverse());
    out
}

/// Puts a complete list of threads in the order `order` asks for: oldest
/// first for `Old`; most liked first, and newest first among equal likes, for
/// `Like`; unchanged otherwise.
pub fn order_threads(order: Order, threads: Vec<CommentThread>) -> (r: Vec<CommentThread>)
    ensures
        r@ == ordered_threads(order, threads@),
{
    match order {
        Order::Old => stable_sort(SortKey::Time, threads),
        Order::Like => reversed(stable_sort(SortKey::LikesThenTime, threads)),
        _ => threads,
    }
}

/// Puts a complete list of replies in the order `order` asks for: oldest first
/// for `Old`; newest first for `New` and `Peek`; most liked first, and newest
/// first among equal likes, for `Default` and `Like`.
pub fn order_replies(order: Order, replies: Vec<Comment>) -> (r: Vec<Comment>)
    ensures
        r@ == ordered_replies(order, replies@),
{
    match order {
        Order::Old => stable_sort(SortKey::Time, replies),
        Order::Default | Order::Like => reversed(stable_sort(SortKey::LikesThenTime, replies)),
        Order::New | Order::Peek => reversed(stable_sort(SortKey::Time, replies)),
    }
}

/// Puts replies that were fetched page by page in the order `order` asks for:
/// arrival order where the order streams them, else as `order_replies` does.
pub fn order_fetched_replies(order: Order, replies: Vec<Comment>) -> (r: Vec<Comment>)
    ensures
        r@ == ordered_fetched_replies(order, replies@),
{
    match order {
        Order::New | Order::Peek => replies,
        _ => order_replies(order, replies),
    }
}


proof fn lemma_key_le_total<T: Ranked>(k: SortKey, a: T, b: T)
    ensures
        key_le(k, a, b) || key_le(k, b, a),
{
}

proof fn lemma_insert_low_sorted<T: Ranked>(k: SortKey, x: T, t: Seq<T>)
    requires
        is_sorted_by(k, t),
    ensures
        is_sorted_by(k, insert_low(k, x, t)),
        insert_low(k, x, t).to_multiset() == t.to_multiset().insert(x),
    decreases t.len(),
{
    if t.len() == 0 {
        assert(insert_low(k, x, t) =~= t.insert(0, x));
    } else if key_le(k, x, t[0]) {
        assert(insert_low(k, x, t) =~= t.insert(0, x));
    } else {
        let rest = t.drop_first();
        lemma_insert_low_sorted(k, x, rest);
        let ins = insert_low(k, x, rest);
        let r = insert_low(k, x, t);
        assert(r =~= ins.insert(0, t[0]));
        lemma_key_le_total(k, x, t[0]);
        assert forall|m: int| 0 <= m < ins.len() implies key_le(k, t[0], #[trigger] ins[m]) by {
            assert(ins.contains(ins[m]));
            assert(ins.to_multiset().count(ins[m]) > 0);
            if ins[m] != x {
                assert(rest.to_multiset().count(ins[m]) > 0);
                assert(rest.contains(ins[m]));
                let n = choose|n: int| 0 <= n < rest.len() && rest[n] == ins[m];
                assert(t[n + 1] == ins[m]);
            }
        }
        assert forall|i: int, j: int| 0 <= i < j < r.len() implies key_le(
            k,
            #[trigger] r[i],
            #[trigger] r[j],
        ) by {
            if i == 0 {
                assert(r[j] == ins[j - 1]);
            } else {
                assert(r[i] == ins[i - 1] && r[j] == ins[j - 1]);
            }
        }
        assert(t =~= rest.insert(0, t[0]));
    }
}

/// A stable sort returns its input in ascending order of the key, and holds
/// each element of the input exactly as often as the input does.
pub proof fn lemma_sorted_by_sorted<T: Ranked>(k: SortKey, s: Seq<T>)
    ensures
        is_sorted_by(k, sorted_by(k, s)),
        sorted_by(k, s).to_multiset() == s.to_multiset(),
    decreases s.len(),
{
    if s.len() > 0 {
        lemma_sorted_by_sorted(k, s.drop_first());
        lemma_insert_low_sorted(k, s[0], sorted_by(k, s.drop_first()));
        assert(s =~= s.drop_first().insert(0, s[0]));
    }
}

/// Under `Old`, threads come out in ascending order of publish time, whatever
/// their likes, and no thread is lost or repeated.
pub proof fn lemma_old_order_ascending(s: Seq<CommentThread>)
    ensures
        forall|i: int, j: int|
            0 <= i < j < s.len() ==> (#[trigger] ordered_threads(Order::Old, s)[i]).rank_time().spec_not_after(
                (#[trigger] ordered_threads(Order::Old, s)[j]).rank_time(),
            ),
        ordered_threads(Order::Old, s).to_multiset() == s.to_multiset(),
{
    lemma_sorted_by_sorted(SortKey::Time, s);
    assert(sorted_by(SortKey::Time, s).len() == s.len()) by {
        sorted_by(SortKey::Time, s).to_multiset_ensures();
        s.to_multiset_ensures();
    }
}

/// Under `Like`, threads come out with the most liked first and, among equal
/// likes, the newest first, and no thread is lost or repeated.
pub proof fn lemma_like_order_descending(s: Seq<CommentThread>)
    ensures
        forall|i: int, j: int|
            0 <= i < j < s.len() ==> key_le(
                SortKey::LikesThenTime,
                #[trigger] ordered_threads(Order::Like, s)[j],
                #[trigger] ordered_threads(Order::Like, s)[i],
            ),
        ordered_threads(Order::Like, s).to_multiset() == s.to_multiset(),
{
    let sorted = sorted_by(SortKey::LikesThenTime, s);
    lemma_sorted_by_sorted(SortKey::LikesThenTime, s);
    assert(sorted.len() == s.len()) by {
        sorted.to_multiset_ensures();
        s.to_multiset_ensures();
    }
    sorted.lemma_reverse_to_multiset();
    let r = ordered_threads(Order::Like, s);
    assert forall|i: int, j: int| 0 <= i < j < s.len() implies key_le(
        SortKey::LikesThenTime,
        #[trigger] r[j],
        #[trigger] r[i],
    ) by {
        assert(r[i] == sorted[s.len() - 1 - i]);
        assert(r[j] == sorted[s.len() - 1 - j]);
    }
}

} // verus!
