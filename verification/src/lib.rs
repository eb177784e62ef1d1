//! A file-retrieval abstraction with a retry decorator.
//!
//! The library models a download request's retry behaviour: a retry policy
//! (a number of attempts and a fixed delay between them), a location
//! descriptor for the file to fetch, and a step-wise retry engine that
//! decides, after each attempt's outcome, whether the request is complete,
//! has failed terminally, or should wait and try again. The engine's
//! decisions are verified; an asynchronous shell around the library
//! performs the actual transfers and the waiting.

pub mod interface;
pub mod message;
pub mod retry;

pub use interface::FileDownloaderUri;
pub use interface::FileUri;
pub use retry::AttemptOutcome;
pub use retry::FileDownloadRetryPolicy;
pub use retry::RetryDownloader;
pub use retry::RetryExhaustedError;
pub use retry::RetryRun;
pub use retry::RetryStep;
