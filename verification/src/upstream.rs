//! What one attempt to get a document from upstream came to.

use crate::calendar::Ymd;
use crate::key::{artifact_name, DateKey};
use vstd::prelude::*;
use vstd::string::*;

verus! {

/// The model of a `FetchOutcome`.
pub enum OutcomeModel {
    Success(Seq<u8>),
    NotYetPublished,
    UpstreamUnreachable,
    UpstreamError(u16),
}

/// The result of one attempt at upstream, in the only words in which the
/// engine reasons about the network.
#[derive(Clone, Debug, PartialEq, Eq)]
pub enum FetchOutcome {
    /// Upstream sent the document.
    Success(Vec<u8>),
    /// Upstream says that it has nothing for the date.
    NotYetPublished,
    /// No answer came: the connection or the transfer failed.
    UpstreamUnreachable,
    /// Upstream answered with another status.
    UpstreamError(u16),
}

impl View for FetchOutcome {
    type V = OutcomeModel;

    open spec fn view(&self) -> OutcomeModel {
        match self {
            FetchOutcome::Success(bytes) => OutcomeModel::Success(bytes@),
            FetchOutcome::NotYetPublished => OutcomeModel::NotYetPublished,
            FetchOutcome::UpstreamUnreachable => OutcomeModel::UpstreamUnreachable,
            FetchOutcome::UpstreamError(code) => OutcomeModel::UpstreamError(*code),
        }
    }
}

/// The status with which upstream sends a document.
pub const STATUS_OK: u16 = 200;

/// The status with which upstream says that it has no document.
pub const STATUS_NOT_FOUND: u16 = 404;

/// How an attempt is classified: `status` is the status of the answer, or
/// nothing where no answer came, and `body` what the answer carried.
pub open spec fn classification(status: Option<u16>, body: Seq<u8>) -> OutcomeModel {
    match status {
        None => OutcomeModel::UpstreamUnreachable,
        Some(code) => if code == STATUS_OK {
            OutcomeModel::Success(body)
        } else if code == STATUS_NOT_FOUND {
            OutcomeModel::NotYetPublished
        } else {
            OutcomeModel::UpstreamError(code)
        },
    }
}

/// The address of the document of a date: the base address of upstream and
/// the name of the document's file.
pub open spec fn upstream_url(base: Seq<char>, date: Ymd) -> Seq<char> {
    base + artifact_name(date)
}

impl FetchOutcome {
    /// Classifies one attempt at upstream.
    pub fn classify(status: Option<u16>, body: Vec<u8>) -> (outcome: FetchOutcome)
        ensures
            outcome@ == classification(status, body@),
    {
        match status {
            None => FetchOutcome::UpstreamUnreachable,
            Some(code) => if code == STATUS_OK {
                FetchOutcome::Success(body)
            } else if code == STATUS_NOT_FOUND {
                FetchOutcome::NotYetPublished
            } else {
                FetchOutcome::UpstreamError(code)
            },
        }
    }
}

/// The address from which the document of `key` is fetched.
pub fn url_for(base: &str, key: &DateKey) -> (url: String)
    ensures
        url@ == upstream_url(base@, key@),
{
    let mut url = base.to_owned();
    url.append(key.artifact_name().as_str());
    url
}

} // verus!
