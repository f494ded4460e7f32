//! Fetches the comment threads of a video page by page, orders them, and
//! resolves each thread's replies. The network and the terminal are left to
//! the caller: this library decides what to request, what a response means and
//! in which order records are shown.

pub mod constants;
pub mod models;
pub mod args;
pub mod ordering;
pub mod response;
pub mod paginator;
pub mod replies;
pub mod url;
