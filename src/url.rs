use vstd::prelude::*;

use crate::paginator::pairs_view;

verus! {

/// Whether `reqwest::Url::parse` accepts `s` as an absolute URL.
pub uninterp spec fn url_parses(s: Seq<char>) -> bool;

/// The host that `Url::host_str` gives for the URL parsed from `s`.
pub uninterp spec fn url_host(s: Seq<char>) -> Option<Seq<char>>;

/// The path that `Url::path` gives for the URL parsed from `s`.
pub uninterp spec fn url_path(s: Seq<char>) -> Seq<char>;

/// The decoded query pairs, in order, that `Url::query_pairs` gives for the
/// URL parsed from `s`.
pub uninterp spec fn url_query_pairs(s: Seq<char>) -> Seq<(Seq<char>, Seq<char>)>;

/// What the video id is read from in a parsed URL.
#[derive(Debug)]
pub struct UrlParts {
    pub host: Option<String>,
    pub path: String,
    pub query: Vec<(String, String)>,
}

/// A parsed URL seen as host, path and query pairs.
pub type UrlView = (Option<Seq<char>>, Seq<char>, Seq<(Seq<char>, Seq<char>)>);

impl View for UrlParts {
    type V = UrlView;

    open spec fn view(&self) -> UrlView {
        (
            match self.host {
                Some(h) => Some(h@),
                None => None,
            },
            self.path@,
            pairs_view(self.query@),
        )
    }
}

/// The parts of `s` as the URL crate reads them, where it parses.
pub open spec fn named_parts(s: Seq<char>) -> Option<UrlView> {
    if url_parses(s) {
        Some((url_host(s), url_path(s), url_query_pairs(s)))
    } else {
        None
    }
}

/// Relies on `reqwest::Url::parse` (the `url` crate) to parse `s`, and on
/// `host_str`, `path` and `query_pairs` to read the parsed URL.
#[verifier::external_body]
fn url_parts(s: &str) -> (r: Option<UrlParts>)
    ensures
        r is Some == url_parses(s@),
        r is Some ==> r->Some_0@ == (url_host(s@), url_path(s@), url_query_pairs(s@)),
{
    match reqwest::Url::parse(s) {
        Ok(url) => Some(UrlParts {
            host: url.host_str().map(|h| h.to_owned()),
            path: url.path().to_owned(),
            query: url.query_pairs().map(|(k, v)| (k.into_owned(), v.into_owned())).collect(),
        }),
        Err(_) => None,
    }
}

/// The value of the first pair of `q` whose key is `key`.
pub open spec fn first_value(q: Seq<(Seq<char>, Seq<char>)>, key: Seq<char>) -> Option<Seq<char>>
    decreases q.len(),
{
    if q.len() == 0 {
        None
    } else if q[0].0 == key {
        Some(q[0].1)
    } else {
        first_value(q.drop_first(), key)
    }
}

/// `s` begins with `prefix`.
pub open spec fn has_prefix(s: Seq<char>, prefix: Seq<char>) -> bool {
    prefix.len() <= s.len() && s.subrange(0, prefix.len() as int) == prefix
}

/// `s` with `https://` in front unless it already names http or https.
pub open spec fn with_scheme(s: Seq<char>) -> Seq<char> {
    if has_prefix(s, "http://"@) || has_prefix(s, "https://"@) {
        s
    } else {
        "https://"@ + s
    }
}

/// The video id that `input` names, given how it parses as a URL: the `v`
/// query parameter of a `youtube.com/watch` URL, the path after the leading
/// character of a `youtu.be` URL, and `input` itself otherwise.
pub open spec fn video_id_in(input: Seq<char>, parts: Option<UrlView>) -> Seq<char> {
    match parts {
        Some((Some(host), path, query)) => {
            if host == "www.youtube.com"@ || host == "youtube.com"@ {
                if path == "/watch"@ && first_value(query, "v"@) is Some {
                    first_value(query, "v"@)->Some_0
                } else {
                    input
                }
            } else if host == "youtu.be"@ {
                drop_head(path)
            } else {
                input
            }
        },
        _ => input,
    }
}

/// The sequence without its first element; empty where `s` is empty.
pub open spec fn drop_head(s: Seq<char>) -> Seq<char> {
    if s.len() == 0 {
        s
    } else {
        s.drop_first()
    }
}

pub fn has_prefix_exec(s: &str, prefix: &str) -> (r: bool)
    ensures
        r == has_prefix(s@, prefix@),
{
    let n = s.unicode_len();
    let m = prefix.unicode_len();
    if m > n {
        return false;
    }
    let mut i: usize = 0;
    while i < m
        invariant
            m <= n,
            n == s@.len(),
            m == prefix@.len(),
            i <= m,
            s@.subrange(0, i as int) == prefix@.subrange(0, i as int),
        decreases m - i,
    {
        if s.get_char(i) != prefix.get_char(i) {
            assert(s@.subrange(0, m as int)[i as int] != prefix@[i as int]);
            return false;
        }
        assert(s@.subrange(0, i + 1) =~= s@.subrange(0, i as int).push(s@[i as int]));
        assert(prefix@.subrange(0, i + 1) =~= prefix@.subrange(0, i as int).push(prefix@[i as int]));
        i = i + 1;
    }
    assert(prefix@.subrange(0, m as int) =~= prefix@);
    true
}

fn text_eq(a: &str, b: &str) -> (r: bool)
    ensures
        r == (a@ == b@),
{
    let same = a.unicode_len() == b.unicode_len() && has_prefix_exec(a, b);
    proof {
        assert(a@.subrange(0, a@.len() as int) =~= a@);
    }
    same
}

fn first_value_exec(q: &Vec<(String, String)>, key: &str) -> (r: Option<String>)
    ensures
        match r {
            Some(v) => first_value(pairs_view(q@), key@) == Some(v@),
            None => first_value(pairs_view(q@), key@) is None,
        },
{
    let mut i: usize = 0;
    assert(pairs_view(q@).subrange(0, q@.len() as int) =~= pairs_view(q@));
    while i < q.len()
        invariant
            i <= q@.len(),
            first_value(pairs_view(q@), key@) == first_value(
                pairs_view(q@).subrange(i as int, q@.len() as int),
                key@,
            ),
        decreases q@.len() - i,
    {
        let ghost rest = pairs_view(q@).subrange(i as int, q@.len() as int);
        if text_eq(q[i].0.as_str(), key) {
            return Some(q[i].1.clone());
        }
        assert(rest.drop_first() =~= pairs_view(q@).subrange(i + 1, q@.len() as int));
        i = i + 1;
    }
    assert(pairs_view(q@).subrange(i as int, q@.len() as int).len() == 0);
    None
}

/// The video id that `input` names, given the parts that the URL crate read
/// from it (`None` where it did not parse).
pub fn video_id_from_parts(input: &str, parts: Option<UrlParts>) -> (r: String)
    ensures
        r@ == video_id_in(
            input@,
            match parts {
                Some(p) => Some(p@),
                None => None,
            },
        ),
{
    match parts {
        Some(p) => match &p.host {
            Some(host) => {
                if text_eq(host.as_str(), "www.youtube.com") || text_eq(host.as_str(), "youtube.com") {
                    if text_eq(p.path.as_str(), "/watch") {
                        if let Some(v) = first_value_exec(&p.query, "v") {
                            return v;
                        }
                    }
                    String::from_str(input)
                } else if text_eq(host.as_str(), "youtu.be") {
                    let n = p.path.as_str().unicode_len();
                    if n == 0 {
                        String::new()
                    } else {
                        String::from_str(p.path.as_str().substring_char(1, n))
                    }
                } else {
                    String::from_str(input)
                }
            },
            None => String::from_str(input),
        },
        None => String::from_str(input),
    }
}

/// The video id that `input` names: `input` is read as a URL (with
/// `https://` put in front unless it names http or https) and the id taken
/// from it as `video_id_in` says; a bare id comes back as it is.
pub fn parse_video_id(input: &str) -> (r: String)
    ensures
        r@ == video_id_in(input@, named_parts(with_scheme(input@))),
{
    let with_protocol = if has_prefix_exec(input, "http://") || has_prefix_exec(input, "https://") {
        String::from_str(input)
    } else {
        String::from_str("https://").concat(input)
    };
    let parts = url_parts(with_protocol.as_str());
    video_id_from_parts(input, parts)
}

} // verus!
