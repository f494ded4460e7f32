use vstd::prelude::*;

use crate::constants::DEFAULT_YOUTUBE_API_KEY;
use crate::response::ViewerError;
use crate::url::{named_parts, parse_video_id, video_id_in, with_scheme};

verus! {

/// The order in which comments are shown.
#[derive(Clone, Copy, Debug, PartialEq, Eq, Structural)]
pub enum Order {
    /// The platform's own order ("relevance").
    Default,
    /// Newest first, as the platform delivers it.
    New,
    /// Oldest first, sorted locally.
    Old,
    /// Most liked first, newest first among equal likes, sorted locally.
    Like,
    /// The newest ten comments only.
    Peek,
}

/// The command line as given: a video id or URL, the order flags, and the
/// key if one was passed.
#[derive(Debug)]
pub struct CliArgs {
    pub video_id_or_url: String,
    pub default: bool,
    pub new: bool,
    pub old: bool,
    pub like: bool,
    pub peek: bool,
    pub api_key: Option<String>,
}

/// What a run needs: the video, the order and the key.
#[derive(Debug)]
pub struct Args {
    pub video_id: String,
    pub order: Order,
    pub api_key: String,
}

/// How many of the order flags are set.
pub open spec fn flags_set(c: CliArgs) -> nat {
    (if c.default { 1nat } else { 0nat }) + (if c.new { 1nat } else { 0nat }) + (if c.old {
        1nat
    } else {
        0nat
    }) + (if c.like { 1nat } else { 0nat }) + (if c.peek { 1nat } else { 0nat })
}

/// The order that the flags select, where at most one is set; none selects
/// the default order.
pub open spec fn order_of(c: CliArgs) -> Order {
    if c.new {
        Order::New
    } else if c.old {
        Order::Old
    } else if c.like {
        Order::Like
    } else if c.peek {
        Order::Peek
    } else {
        Order::Default
    }
}

/// The key used: the one passed, else the one from the environment, else the
/// built-in one.
pub open spec fn chosen_key(passed: Option<String>, env: Option<String>) -> Seq<char> {
    match passed {
        Some(k) => k@,
        None => match env {
            Some(k) => k@,
            None => DEFAULT_YOUTUBE_API_KEY@,
        },
    }
}

/// Validates the command line: at most one order flag may be set. `env_api_key`
/// is the key that the environment holds, if any.
pub fn parse(cli: CliArgs, env_api_key: Option<String>) -> (r: Result<Args, ViewerError>)
    ensures
        r is Ok <==> flags_set(cli) <= 1,
        r is Err ==> (r matches Err(ViewerError::InvalidArgument)),
        r is Ok ==> r->Ok_0.order == order_of(cli) && r->Ok_0.api_key@ == chosen_key(
            cli.api_key,
            env_api_key,
        ) && r->Ok_0.video_id@ == video_id_in(
            cli.video_id_or_url@,
            named_parts(with_scheme(cli.video_id_or_url@)),
        ),
{
    let order = match (cli.default, cli.new, cli.old, cli.like, cli.peek) {
        (false, false, false, false, false) => Order::Default,
        (true, false, false, false, false) => Order::Default,
        (false, true, false, false, false) => Order::New,
        (false, false, true, false, false) => Order::Old,
        (false, false, false, true, false) => Order::Like,
        (false, false, false, false, true) => Order::Peek,
        _ => {
            return Err(ViewerError::InvalidArgument);
        },
    };
    let api_key = match cli.api_key {
        Some(key) => key,
        None => match env_api_key {
            Some(key) => key,
            None => String::from_str(DEFAULT_YOUTUBE_API_KEY),
        },
    };
    let video_id = parse_video_id(cli.video_id_or_url.as_str());
    Ok(Args { video_id, order, api_key })
}

} // verus!
