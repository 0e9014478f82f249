//! Page metadata from HTML: a lossy text decoder, the title and description
//! rules, and the per-request state machine that ties them to one fetch.

pub mod decoder;
pub mod extractor;
pub mod orchestrator;

pub use decoder::decode;
pub use extractor::{extract, ExtractionResult};
pub use orchestrator::{
    handle, Action, CrawlError, CrawlRequest, Event, FetchedDocument, State, Step,
};
