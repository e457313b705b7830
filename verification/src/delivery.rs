//! The delivery coordinator's decisions: what is handed to the broker client
//! for an intent, and what follows from the outcome that the client reports.

use vstd::prelude::*;
use crate::decode::{IntentView, PublishIntent};
use crate::error::GatewayError;
use crate::response::Response;

verus! {

/// How long the process lives on after a delivery has failed, in seconds.
pub const TERMINATION_DELAY_SECS: u64 = 60;

/// The exit code of a process that ends itself after a failed delivery.
pub const TERMINATION_EXIT_CODE: i32 = 0;

/// A record for the broker client. No queuing deadline belongs to it: the
/// only time limit on a delivery is the one that the client is configured
/// with.
#[derive(Debug, PartialEq, Eq)]
pub struct Submission {
    pub topic: String,
    pub key: String,
    pub payload: String,
}

/// What a `Submission` holds, as plain text.
pub struct SubmissionView {
    pub topic: Seq<char>,
    pub key: Seq<char>,
    pub payload: Seq<char>,
}

impl View for Submission {
    type V = SubmissionView;

    open spec fn view(&self) -> SubmissionView {
        SubmissionView { topic: self.topic@, key: self.key@, payload: self.payload@ }
    }
}

/// The record that carries an intent: its message as the payload, bound for
/// its topic, under the empty key.
pub open spec fn submission_of(intent: IntentView) -> SubmissionView {
    SubmissionView { topic: intent.topic, key: Seq::empty(), payload: intent.message }
}

/// Turns an intent into the record to hand to the broker client.
pub fn submission_for(intent: PublishIntent) -> (record: Submission)
    ensures
        record@ == submission_of(intent@),
        record@.topic.len() > 0,
{
    let (topic, message) = intent.into_parts();
    Submission { topic, key: String::new(), payload: message }
}

/// What the broker client reported of a submitted record.
#[derive(Clone, Copy, Debug, PartialEq, Eq, Structural)]
pub enum DeliveryOutcome {
    /// The broker has the message.
    Acknowledged,
    /// The client gave up: its retries are spent, or the error allows none.
    Failed,
}

/// An order to end the whole process: after `delay_secs` seconds, with
/// `exit_code`, whatever else is going on.
#[derive(Clone, Copy, Debug, PartialEq, Eq, Structural)]
pub struct Termination {
    pub delay_secs: u64,
    pub exit_code: i32,
}

/// What follows from a delivery outcome: the answer to the caller, and the
/// order to end the process where the connection is given up.
#[derive(Clone, Copy, Debug, PartialEq, Eq, Structural)]
pub struct Resolution {
    pub response: Response,
    pub termination: Option<Termination>,
}

/// The resolution of a delivery outcome. An acknowledged delivery is
/// answered with success and nothing else happens. A failed one is answered
/// with a refusal, and the process is to end after the fixed delay, since the
/// connection is never rebuilt while it runs.
pub open spec fn spec_settle(outcome: DeliveryOutcome) -> Resolution {
    match outcome {
        DeliveryOutcome::Acknowledged => Resolution {
            response: Response::Published,
            termination: None,
        },
        DeliveryOutcome::Failed => Resolution {
            response: Response::Refused(GatewayError::DeliveryFailure),
            termination: Some(
                Termination {
                    delay_secs: TERMINATION_DELAY_SECS,
                    exit_code: TERMINATION_EXIT_CODE,
                },
            ),
        },
    }
}

/// Decides what follows from a delivery outcome. Nothing is retried here.
#[verifier::when_used_as_spec(spec_settle)]
pub fn settle(outcome: DeliveryOutcome) -> (resolution: Resolution)
    ensures
        resolution == spec_settle(outcome),
{
    match outcome {
        DeliveryOutcome::Acknowledged => Resolution {
            response: Response::Published,
            termination: None,
        },
        DeliveryOutcome::Failed => Resolution {
            response: Response::Refused(GatewayError::DeliveryFailure),
            termination: Some(
                Termination {
                    delay_secs: TERMINATION_DELAY_SECS,
                    exit_code: TERMINATION_EXIT_CODE,
                },
            ),
        },
    }
}

/// The line to log for a failed delivery, given the client's own account of
/// the failure.
pub fn failure_notice(detail: &str) -> (line: String)
    ensures
        line@ == "Failed to send message: "@ + detail@,
{
    let mut line = "Failed to send message: ".to_owned();
    line.append(detail);
    line
}

} // verus!
