//! Client-side logic for running Apify actors: validating actor ids and API
//! base URLs, building request URLs, deciding retries with exponential
//! backoff, rotating API keys, polling a run until it ends and paging
//! through its dataset.
//!
//! Every exchange with the Apify API is left to the caller: the functions
//! here take what an exchange came to and say what to do next.

pub mod client;
pub mod error;
pub mod laws;
pub mod outside;
pub mod pages;
pub mod poll;
pub mod retry;
pub mod run;
pub mod text;
pub mod time;
pub mod validate;

pub use client::{ApifyClient, RunInput};
pub use error::{api_status_error, should_rotate_key, Error};
pub use pages::{PageCursor, PageStep, MAX_PAGE};
pub use poll::PollStep;
pub use retry::{backoff_millis, is_transient_status, SendOutcome, SendStep};
pub use run::{KeyRotation, RunHandle, RunInfo, RunStep};
pub use time::TimeSpan;
pub use validate::{is_secure_base, trim_trailing_slashes, validate_actor_id};
