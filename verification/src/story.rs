//! The story record and the error taxonomy of the fetch pipeline.

use vstd::prelude::*;
use vstd::string::StringExecFns;

verus! {

/// One news item as resolved from the upstream item endpoint.
///
/// A record is immutable once constructed; the application state owns the
/// list of records after a fetch completes.
#[derive(Debug, Clone, PartialEq, Eq)]
pub struct Story {
    /// Title of the story.
    pub title: String,
    /// Optional link to the original article; absent for text-only posts.
    pub url: Option<String>,
    /// Upvote count.
    pub score: u32,
    /// Handle of the submitter.
    pub by: String,
    /// Submission time, in Unix epoch seconds.
    pub time: u64,
    /// Comment count; absent means none were reported.
    pub descendants: Option<u32>,
}

/// The ways the pipeline and its collaborators can fail.
///
/// Only an unavailable index is fatal to a fetch; the other failures are
/// absorbed where they occur.
#[derive(Debug, Clone, PartialEq, Eq)]
pub enum FetchError {
    /// The ranked-identifier request failed or was malformed; fatal.
    IndexUnavailable(String),
    /// One story's detail request failed or was malformed; that item is dropped.
    ItemUnavailable(String),
    /// The external link opener refused the selected story's link.
    OpenLinkFailed(String),
    /// Raw-mode or alternate-screen entry failed at startup.
    TerminalSetupFailed(String),
}

impl FetchError {
    /// The detail text carried by the error.
    pub open spec fn spec_detail(self) -> Seq<char> {
        match self {
            FetchError::IndexUnavailable(d) => d@,
            FetchError::ItemUnavailable(d) => d@,
            FetchError::OpenLinkFailed(d) => d@,
            FetchError::TerminalSetupFailed(d) => d@,
        }
    }

    /// A human-readable description: a fixed non-empty prefix naming the
    /// failure, followed by the carried detail.
    pub fn message(&self) -> (m: String)
        ensures
            m@.len() > 0,
            m@ == self.spec_prefix() + self.spec_detail(),
    {
        let prefix: &str = match self {
            FetchError::IndexUnavailable(_) => "could not load the story index: ",
            FetchError::ItemUnavailable(_) => "could not load a story: ",
            FetchError::OpenLinkFailed(_) => "could not open the link: ",
            FetchError::TerminalSetupFailed(_) => "could not set up the terminal: ",
        };
        proof {
            reveal_strlit("could not load the story index: ");
            reveal_strlit("could not load a story: ");
            reveal_strlit("could not open the link: ");
            reveal_strlit("could not set up the terminal: ");
        }
        let detail: &str = match self {
            FetchError::IndexUnavailable(d) => d.as_str(),
            FetchError::ItemUnavailable(d) => d.as_str(),
            FetchError::OpenLinkFailed(d) => d.as_str(),
            FetchError::TerminalSetupFailed(d) => d.as_str(),
        };
        let mut m = prefix.to_string();
        m.append(detail);
        m
    }

    /// The fixed prefix that `message` puts before the detail.
    pub open spec fn spec_prefix(self) -> Seq<char> {
        match self {
            FetchError::IndexUnavailable(_) => "could not load the story index: "@,
            FetchError::ItemUnavailable(_) => "could not load a story: "@,
            FetchError::OpenLinkFailed(_) => "could not open the link: "@,
            FetchError::TerminalSetupFailed(_) => "could not set up the terminal: "@,
        }
    }
}

} // verus!
