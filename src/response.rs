use vstd::prelude::*;

use crate::constants::ABOUT_API_KEY;
use crate::models::envelop::Envelop;
use crate::models::error::Error;
use crate::models::video::Video;

verus! {

/// Why a run stopped.
#[derive(Debug)]
pub enum ViewerError {
    /// More than one order was asked for.
    InvalidArgument,
    /// The API reported an error in place of a page.
    Api(Error),
    /// The video lookup returned no video.
    NotFound,
    /// The request could not be sent or its answer not received.
    Transport(String),
    /// The answer was not a well-formed response.
    Decode(String),
}

/// The message shown for an error that the API reported with `code`: code
/// 400 marks a missing or invalid key, and gets the help on keys appended.
pub open spec fn reported_message(code: i32, message: Seq<char>) -> Seq<char> {
    if code == 400 {
        message + "\n\n"@ + ABOUT_API_KEY@
    } else {
        message
    }
}

/// The items of a page; none where the response carries no list.
pub open spec fn page_items<T>(env: Envelop<T>) -> Seq<T> {
    match env.items {
        Some(v) => v@,
        None => Seq::empty(),
    }
}

/// Turns the error that the API reported into the one shown to the user.
pub fn report_error(e: Error) -> (r: Error)
    ensures
        r.code == e.code,
        r.message@ == reported_message(e.code, e.message@),
{
    let mut message = e.message;
    if e.code == 400 {
        message.append("\n\n");
        message.append(ABOUT_API_KEY);
    }
    Error { code: e.code, message }
}

/// Fails with the error that a response carries, if any; passes an
/// error-free response on unchanged.
pub fn check_response<T>(env: Envelop<T>) -> (r: Result<Envelop<T>, Error>)
    ensures
        env.error is None ==> r == Ok::<Envelop<T>, Error>(env),
        env.error is Some ==> r is Err && r->Err_0.code == env.error->Some_0.code
            && r->Err_0.message@ == reported_message(
            env.error->Some_0.code,
            env.error->Some_0.message@,
        ),
{
    match env.error {
        Some(e) => Err(report_error(e)),
        None => Ok(env),
    }
}

/// The video that a lookup by id returned: the first item of the response.
/// Fails with the reported error, or with `NotFound` where the response holds
/// no item.
pub fn video_from_response(env: Envelop<Video>) -> (r: Result<Video, ViewerError>)
    ensures
        env.error is Some ==> (r matches Err(ViewerError::Api(e)) && e.code
            == env.error->Some_0.code && e.message@ == reported_message(
            env.error->Some_0.code,
            env.error->Some_0.message@,
        )),
        env.error is None && page_items(env).len() == 0 ==> (r matches Err(ViewerError::NotFound)),
        env.error is None && page_items(env).len() > 0 ==> r == Ok::<Video, ViewerError>(
            page_items(env)[0],
        ),
{
    match check_response(env) {
        Err(e) => Err(ViewerError::Api(e)),
        Ok(page) => match page.items {
            Some(items) => {
                if items.len() == 0 {
                    Err(ViewerError::NotFound)
                } else {
                    let mut items = items;
                    Ok(items.remove(0))
                }
            },
            None => Err(ViewerError::NotFound),
        },
    }
}

} // verus!
