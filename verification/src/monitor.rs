use vstd::prelude::*;

use crate::api::{stream_from_json, stream_live, StreamMetadata, StreamMetadataView};
use crate::json::{bool_of, field_of, JsonValue};
use crate::recorder::RECHECK_DELAY_SECS;

verus! {

/// What the online check does after one poll of the stream status.
#[derive(Debug, Clone, Copy, PartialEq, Eq, Structural)]
pub enum PollDecision {
    /// The stream is live: send the live notice when `notify`, then record.
    StartRecording { notify: bool },
    /// The reply lists a stream that is not accessible: poll again at once.
    PollAgain,
    /// The stream is offline: wait this many seconds before the next poll.
    WaitOffline(u64),
}

pub open spec fn poll_decision(stream: StreamMetadataView, webhook_enabled: bool) -> PollDecision {
    if stream.success && stream.response is Some {
        if stream.response->0.stream.access {
            PollDecision::StartRecording { notify: webhook_enabled }
        } else {
            PollDecision::PollAgain
        }
    } else {
        PollDecision::WaitOffline(RECHECK_DELAY_SECS)
    }
}

/// Decides what follows a poll: record a stream that the reply reports as
/// successful, present and accessible; wait 130 seconds when the reply is
/// unsuccessful or has no stream.
pub fn decide_after_poll(stream: &StreamMetadata, webhook_enabled: bool) -> (d: PollDecision)
    ensures
        d == poll_decision(stream@, webhook_enabled),
{
    if stream.success && stream.response.is_some() {
        match &stream.response {
            Some(r) => if r.stream.access {
                PollDecision::StartRecording { notify: webhook_enabled }
            } else {
                PollDecision::PollAgain
            },
            None => PollDecision::WaitOffline(RECHECK_DELAY_SECS),
        }
    } else {
        PollDecision::WaitOffline(RECHECK_DELAY_SECS)
    }
}

/// Reading a stream status reply and deciding on it: the recorder starts
/// recording exactly when the stream is live and the reply reports success,
/// and otherwise waits 130 seconds; it never polls again at once.
pub proof fn lemma_poll_of_reply(doc: JsonValue, webhook_enabled: bool)
    ensures
        poll_decision(stream_from_json(doc), webhook_enabled) == if stream_live(doc)
            && bool_of(field_of(doc, "success"@)) == Some(true) {
            PollDecision::StartRecording { notify: webhook_enabled }
        } else {
            PollDecision::WaitOffline(RECHECK_DELAY_SECS)
        },
{
}

/// Recording starts only for a reply that reports success and lists an
/// accessible stream, and the live notice goes out exactly when notices are on.
pub proof fn lemma_recording_needs_accessible_stream(stream: StreamMetadataView, webhook_enabled: bool)
    requires
        poll_decision(stream, webhook_enabled) is StartRecording,
    ensures
        stream.success,
        stream.response is Some,
        stream.response->0.stream.access,
        poll_decision(stream, webhook_enabled) == (PollDecision::StartRecording { notify: webhook_enabled }),
{
}

} // verus!
