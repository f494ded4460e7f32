use vstd::prelude::*;

use crate::args::Order;
use crate::models::envelop::Envelop;
use crate::models::error::Error;
use crate::response::{check_response, page_items, reported_message};

verus! {

/// What a paginator walks through.
#[derive(Clone, Debug)]
pub enum Resource {
    /// The comment threads of a video, in the given order.
    CommentThreads { video_id: String, order: Order },
    /// The replies to one top-level comment.
    Replies { parent_id: String },
}

/// One page request: an endpoint and its query parameters, in order.
#[derive(Clone, Debug)]
pub struct PageRequest {
    pub url: String,
    pub query: Vec<(String, String)>,
}

/// The query parameters as pairs of character sequences.
pub open spec fn pairs_view(q: Seq<(String, String)>) -> Seq<(Seq<char>, Seq<char>)> {
    q.map_values(|p: (String, String)| (p.0@, p.1@))
}

/// The endpoint of `resource`.
pub open spec fn resource_url(resource: Resource) -> Seq<char> {
    match resource {
        Resource::CommentThreads { .. } => "https://youtube.googleapis.com/youtube/v3/commentThreads"@,
        Resource::Replies { .. } => "https://youtube.googleapis.com/youtube/v3/comments"@,
    }
}

/// The page size asked for: ten when peeking, else a hundred.
pub open spec fn page_size(resource: Resource) -> Seq<char> {
    match resource {
        Resource::CommentThreads { order: Order::Peek, .. } => "10"@,
        _ => "100"@,
    }
}

/// The order hint sent upstream: relevance for the default order, else time.
pub open spec fn order_hint(order: Order) -> Seq<char> {
    match order {
        Order::Default => "relevance"@,
        _ => "time"@,
    }
}

/// The cursor parameter of a request, where there is a cursor.
pub open spec fn token_param(cursor: Option<String>) -> Seq<(Seq<char>, Seq<char>)> {
    match cursor {
        Some(t) => seq![("pageToken"@, t@)],
        None => Seq::empty(),
    }
}

/// The query parameters of the request for the page at `cursor`.
pub open spec fn page_query(resource: Resource, api_key: Seq<char>, cursor: Option<String>) -> Seq<
    (Seq<char>, Seq<char>),
> {
    match resource {
        Resource::CommentThreads { video_id, order } => seq![
            ("videoId"@, video_id@),
            ("maxResults"@, page_size(resource)),
            ("order"@, order_hint(order)),
            ("part"@, "snippet,replies"@),
            ("textFormat"@, "plainText"@),
            ("key"@, api_key),
        ] + token_param(cursor),
        Resource::Replies { parent_id } => seq![
            ("part"@, "snippet,id"@),
            ("maxResults"@, "100"@),
            ("parentId"@, parent_id@),
            ("textFormat"@, "plainText"@),
            ("key"@, api_key),
        ] + token_param(cursor),
    }
}

/// The query parameters of the lookup of one video by id.
pub open spec fn video_query(video_id: Seq<char>, api_key: Seq<char>) -> Seq<(Seq<char>, Seq<char>)> {
    seq![("id"@, video_id), ("part"@, "snippet,statistics"@), ("key"@, api_key)]
}

/// The request that looks up the video `video_id`, with its snippet and
/// statistics.
pub fn video_request(video_id: &str, api_key: &str) -> (r: PageRequest)
    ensures
        r.url@ == "https://youtube.googleapis.com/youtube/v3/videos"@,
        pairs_view(r.query@) == video_query(video_id@, api_key@),
{
    let mut query: Vec<(String, String)> = Vec::new();
    query.push((String::from_str("id"), String::from_str(video_id)));
    query.push((String::from_str("part"), String::from_str("snippet,statistics")));
    query.push((String::from_str("key"), String::from_str(api_key)));
    assert(pairs_view(query@) =~= video_query(video_id@, api_key@));
    PageRequest { url: String::from_str("https://youtube.googleapis.com/youtube/v3/videos"), query }
}

/// Walks a paged collection one request at a time. The caller sends the
/// request that `next_request` names and hands the decoded response to
/// `on_page`, until `next_request` returns `None` or `on_page` fails.
#[derive(Debug)]
pub struct Paginator {
    pub resource: Resource,
    pub api_key: String,
    /// The cursor of the next page; `None` asks for the first page.
    pub cursor: Option<String>,
    /// No further request is made.
    pub finished: bool,
}

impl Paginator {
    /// Stops after the first page, whatever cursor it returns.
    pub open spec fn is_peek(self) -> bool {
        self.resource matches Resource::CommentThreads { order: Order::Peek, .. }
    }

    /// The state after the response `env` to the current request.
    pub open spec fn after_page<T>(self, env: Envelop<T>) -> Paginator {
        if env.error is Some || self.is_peek() || env.next_page_token is None {
            Paginator { cursor: None, finished: true, ..self }
        } else {
            Paginator { cursor: env.next_page_token, finished: false, ..self }
        }
    }

    /// A paginator over the comment threads of `video_id`, before its first
    /// request.
    pub fn comment_threads(video_id: String, order: Order, api_key: String) -> (r: Paginator)
        ensures
            r == (Paginator {
                resource: Resource::CommentThreads { video_id, order },
                api_key,
                cursor: None,
                finished: false,
            }),
    {
        Paginator {
            resource: Resource::CommentThreads { video_id, order },
            api_key,
            cursor: None,
            finished: false,
        }
    }

    /// A paginator over the replies to the comment `parent_id`, before its
    /// first request.
    pub fn replies(parent_id: String, api_key: String) -> (r: Paginator)
        ensures
            r == (Paginator {
                resource: Resource::Replies { parent_id },
                api_key,
                cursor: None,
                finished: false,
            }),
    {
        Paginator { resource: Resource::Replies { parent_id }, api_key, cursor: None, finished: false }
    }

    /// The request for the next page, or `None` once the walk is over.
    pub fn next_request(&self) -> (r: Option<PageRequest>)
        ensures
            self.finished ==> r is None,
            !self.finished ==> r is Some && r->Some_0.url@ == resource_url(self.resource)
                && pairs_view(r->Some_0.query@) == page_query(
                self.resource,
                self.api_key@,
                self.cursor,
            ),
    {
        if self.finished {
            return None;
        }
        let mut query: Vec<(String, String)> = Vec::new();
        let url;
        match &self.resource {
            Resource::CommentThreads { video_id, order } => {
                url = String::from_str("https://youtube.googleapis.com/youtube/v3/commentThreads");
                query.push((String::from_str("videoId"), video_id.clone()));
                let size = match order {
                    Order::Peek => "10",
                    _ => "100",
                };
                query.push((String::from_str("maxResults"), String::from_str(size)));
                let hint = match order {
                    Order::Default => "relevance",
                    _ => "time",
                };
                query.push((String::from_str("order"), String::from_str(hint)));
                query.push((String::from_str("part"), String::from_str("snippet,replies")));
            },
            Resource::Replies { parent_id } => {
                url = String::from_str("https://youtube.googleapis.com/youtube/v3/comments");
                query.push((String::from_str("part"), String::from_str("snippet,id")));
                query.push((String::from_str("maxResults"), String::from_str("100")));
                query.push((String::from_str("parentId"), parent_id.clone()));
            },
        }
        query.push((String::from_str("textFormat"), String::from_str("plainText")));
        query.push((String::from_str("key"), self.api_key.clone()));
        if let Some(token) = &self.cursor {
            query.push((String::from_str("pageToken"), token.clone()));
        }
        assert(pairs_view(query@) =~= page_query(self.resource, self.api_key@, self.cursor));
        Some(PageRequest { url, query })
    }

    /// Takes the response to the current request: fails with the error it
    /// reports, else returns its items in order and moves on to the cursor it
    /// returns. The walk ends on an error, on a page without a cursor, and
    /// after the first page when peeking.
    pub fn on_page<T>(&mut self, env: Envelop<T>) -> (r: Result<Vec<T>, Error>)
        requires
            !old(self).finished,
        ensures
            *final(self) == old(self).after_page(env),
            env.error is None ==> r is Ok && r->Ok_0@ == page_items(env),
            env.error is Some ==> r is Err && r->Err_0.code == env.error->Some_0.code
                && r->Err_0.message@ == reported_message(
                env.error->Some_0.code,
                env.error->Some_0.message@,
            ),
    {
        let ghost env0 = env;
        let peek = match &self.resource {
            Resource::CommentThreads { order: Order::Peek, .. } => true,
            _ => false,
        };
        match check_response(env) {
            Err(e) => {
                self.cursor = None;
                self.finished = true;
                Err(e)
            },
            Ok(page) => {
                if peek || page.next_page_token.is_none() {
                    self.cursor = None;
                    self.finished = true;
                } else {
                    self.cursor = page.next_page_token;
                }
                match page.items {
                    Some(items) => Ok(items),
                    None => Ok(Vec::new()),
                }
            },
        }
    }
}

/// The state of `p` after it was handed `pages` in turn; pages past the end
/// of the walk are not requested.
pub open spec fn fed<T>(p: Paginator, pages: Seq<Envelop<T>>) -> Paginator
    decreases pages.len(),
{
    if pages.len() == 0 || p.finished {
        p
    } else {
        fed(p.after_page(pages[0]), pages.drop_first())
    }
}

/// The items that `p` passes on when handed `pages` in turn.
pub open spec fn fed_items<T>(p: Paginator, pages: Seq<Envelop<T>>) -> Seq<T>
    decreases pages.len(),
{
    if pages.len() == 0 || p.finished || pages[0].error is Some {
        Seq::empty()
    } else {
        page_items(pages[0]) + fed_items(p.after_page(pages[0]), pages.drop_first())
    }
}

/// The number of requests that `p` makes when handed `pages` in turn.
pub open spec fn requests_made<T>(p: Paginator, pages: Seq<Envelop<T>>) -> nat
    decreases pages.len(),
{
    if pages.len() == 0 || p.finished {
        0
    } else {
        1 + requests_made(p.after_page(pages[0]), pages.drop_first())
    }
}

/// A walk that is not a peek, over error-free pages of which all but the last
/// carry a cursor, requests every page once, passes on the items of all pages
/// in page order, and ends after the last.
pub proof fn lemma_walks_every_page<T>(p: Paginator, pages: Seq<Envelop<T>>)
    requires
        !p.finished,
        !p.is_peek(),
        pages.len() > 0,
        forall|i: int| 0 <= i < pages.len() ==> (#[trigger] pages[i]).error is None,
        forall|i: int| 0 <= i < pages.len() - 1 ==> (#[trigger] pages[i]).next_page_token is Some,
        pages.last().next_page_token is None,
    ensures
        fed(p, pages).finished,
        requests_made(p, pages) == pages.len(),
        fed_items(p, pages) == pages.map_values(|e: Envelop<T>| page_items(e)).flatten(),
    decreases pages.len(),
{
    let all = pages.map_values(|e: Envelop<T>| page_items(e));
    if pages.len() == 1 {
        let q = p.after_page(pages[0]);
        assert(fed(q, pages.drop_first()) == q);
        assert(requests_made(q, pages.drop_first()) == 0);
        assert(fed_items(q, pages.drop_first()) =~= Seq::<T>::empty());
        assert(all.drop_first() =~= Seq::<Seq<T>>::empty());
        assert(all.drop_first().flatten() =~= Seq::<T>::empty());
        assert(all[0] == page_items(pages[0]));
        assert(fed_items(p, pages) =~= all.flatten());
    } else {
        let rest = pages.drop_first();
        let q = p.after_page(pages[0]);
        assert(pages[0].next_page_token is Some);
        assert forall|i: int| 0 <= i < rest.len() implies (#[trigger] rest[i]).error is None by {
            assert(rest[i] == pages[i + 1]);
        }
        assert forall|i: int| 0 <= i < rest.len() - 1 implies (#[trigger] rest[i]).next_page_token is Some by {
            assert(rest[i] == pages[i + 1]);
        }
        lemma_walks_every_page(q, rest);
        assert(all.drop_first() =~= rest.map_values(|e: Envelop<T>| page_items(e)));
    }
}

/// A peek requests exactly one page, whatever cursor that page returns,
/// and asks for ten items.
pub proof fn lemma_peek_makes_one_request<T>(p: Paginator, pages: Seq<Envelop<T>>)
    requires
        !p.finished,
        p.is_peek(),
        pages.len() > 0,
    ensures
        requests_made(p, pages) == 1,
        fed(p, pages).finished,
        pages[0].error is None ==> fed_items(p, pages) == page_items(pages[0]),
        page_size(p.resource) == "10"@,
{
    let q = p.after_page(pages[0]);
    assert(q.finished);
    assert(fed(q, pages.drop_first()) == q);
    assert(requests_made(q, pages.drop_first()) == 0);
    assert(fed_items(q, pages.drop_first()) =~= Seq::<T>::empty());
    assert(page_items(pages[0]) + Seq::<T>::empty() =~= page_items(pages[0]));
}

/// A page that carries an error ends the walk: no later page is requested
/// and nothing of it is passed on.
pub proof fn lemma_error_ends_walk<T>(p: Paginator, pages: Seq<Envelop<T>>)
    requires
        !p.finished,
        pages.len() > 0,
        pages[0].error is Some,
    ensures
        requests_made(p, pages) == 1,
        fed(p, pages).finished,
        fed_items(p, pages) == Seq::<T>::empty(),
{
    let q = p.after_page(pages[0]);
    assert(q.finished);
    assert(fed(q, pages.drop_first()) == q);
    assert(requests_made(q, pages.drop_first()) == 0);
}

} // verus!
