pub mod comment;
pub mod comment_thread;
pub mod envelop;
pub mod error;
pub mod timestamp;
pub mod video;
