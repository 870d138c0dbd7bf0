//! The closed set of ways in which resolving a video can fail.

use vstd::prelude::*;
use crate::extract::ExtractionError;
use crate::extract::Format;

verus! {

/// The network round trips of a resolution, in the order they are made.
#[derive(Clone, Copy, Debug, PartialEq, Eq, Structural)]
pub enum Step {
    /// Fetching the video's page.
    PageFetch,
    /// Exchanging the video's number for an access key.
    KeyResolution,
    /// Asking the streaming service for the media descriptor.
    StreamMetadata,
}

/// Why no access key was obtained.
#[derive(Clone, Copy, Debug, PartialEq, Eq, Structural)]
pub enum KeyResolutionError {
    /// The key service answered with a status outside 200..=299. It does so,
    /// with 500, when the referer or the user agent is missing.
    Rejected { status: u16 },
    /// The key service answered, but not with a key document.
    MalformedBody,
}

/// Why no stream descriptor was assembled.
#[derive(Clone, Copy, Debug, PartialEq, Eq, Structural)]
pub enum StreamResolutionError {
    /// The video is a broadcast that is not on air: its page carries no
    /// live status. This is an expected condition, not a fault.
    NotCurrentlyLive,
    /// The streaming service, or the page's live status, did not have the
    /// expected shape.
    MetadataMalformed,
}

/// Failure of a resolution, tagged with the stage that failed.
#[derive(Clone, Copy, Debug, PartialEq, Eq, Structural)]
pub enum Error {
    /// The network failed, or the page's server answered with an error
    /// status. The whole resolution may be tried again.
    Transport { step: Step },
    /// The page holds no usable state: the site has changed its format.
    Extraction(ExtractionError),
    /// The key service refused or answered garbage; often transient.
    KeyResolution(KeyResolutionError),
    /// The last stage failed.
    StreamResolution(StreamResolutionError),
}

/// Shorthand for results of this library.
pub type Result<T> = core::result::Result<T, Error>;

impl Error {
    /// The text of `message`.
    pub open spec fn message_text(self) -> Seq<char> {
        match self {
            Error::Transport { step: Step::PageFetch } => "transport failure while fetching the video page"@,
            Error::Transport { step: Step::KeyResolution } => "transport failure while resolving the access key"@,
            Error::Transport { step: Step::StreamMetadata } => "transport failure while fetching stream metadata"@,
            Error::Extraction(ExtractionError::FormatNotFound) => "could not find video JSON state"@,
            Error::Extraction(ExtractionError::MalformedState { stage: Format::Current }) => "malformed video state (current format)"@,
            Error::Extraction(ExtractionError::MalformedState { stage: Format::Legacy }) => "malformed video state (legacy format)"@,
            Error::KeyResolution(KeyResolutionError::Rejected { .. }) => "the key service rejected the request"@,
            Error::KeyResolution(KeyResolutionError::MalformedBody) => "the key service sent no key"@,
            Error::StreamResolution(StreamResolutionError::NotCurrentlyLive) => "video is not live"@,
            Error::StreamResolution(StreamResolutionError::MetadataMalformed) => "malformed stream metadata"@,
        }
    }

    /// A sentence for people, one per kind of failure.
    pub fn message(&self) -> (text: String)
        ensures
            text@ == self.message_text(),
    {
        let text = match self {
            Error::Transport { step: Step::PageFetch } => "transport failure while fetching the video page",
            Error::Transport { step: Step::KeyResolution } => "transport failure while resolving the access key",
            Error::Transport { step: Step::StreamMetadata } => "transport failure while fetching stream metadata",
            Error::Extraction(ExtractionError::FormatNotFound) => "could not find video JSON state",
            Error::Extraction(ExtractionError::MalformedState { stage: Format::Current }) => "malformed video state (current format)",
            Error::Extraction(ExtractionError::MalformedState { stage: Format::Legacy }) => "malformed video state (legacy format)",
            Error::KeyResolution(KeyResolutionError::Rejected { .. }) => "the key service rejected the request",
            Error::KeyResolution(KeyResolutionError::MalformedBody) => "the key service sent no key",
            Error::StreamResolution(StreamResolutionError::NotCurrentlyLive) => "video is not live",
            Error::StreamResolution(StreamResolutionError::MetadataMalformed) => "malformed stream metadata",
        };
        String::from_str(text)
    }

    /// Whether trying the whole resolution again may help. A changed page
    /// format and a broadcast that is off air do not go away by retrying.
    pub open spec fn is_retryable(self) -> bool {
        self is Transport || self is KeyResolution
    }

    /// Computes `is_retryable`.
    pub fn retryable(&self) -> (r: bool)
        ensures
            r == self.is_retryable(),
    {
        match self {
            Error::Transport { .. } => true,
            Error::KeyResolution(_) => true,
            _ => false,
        }
    }
}

} // verus!
