//! Failure classification for a Q&A web service.
//!
//! Every failure that request handling can raise is collected into a closed
//! taxonomy, and a single classifier turns the signals attached to a failed
//! request into exactly one HTTP response and one diagnostic log event.

pub mod classifier;
pub mod digits;
pub mod pagination;
pub mod taxonomy;
