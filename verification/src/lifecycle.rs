//! The life of one publish request, as a state machine. The program around
//! this library does the outside work (reading the request, handing a record
//! to the broker client, waiting for the delivery report) and tells the
//! machine what happened; the machine says what to do next.
//!
//! A request moves through `Received`, `Authenticated`, `Decoded` and
//! `Submitted` to `Acknowledged`, or is rejected on the way. Requests share no
//! state: what becomes of one depends on its own events alone.

use vstd::prelude::*;
use crate::auth::{authorize, gate_admits, CredentialVerifier};
use crate::decode::{decode, decoded, parsed_view, PublishData, PublishDataView};
use crate::delivery::{
    settle, spec_settle, submission_for, submission_of, DeliveryOutcome, Resolution, Submission,
    SubmissionView,
};
use crate::error::GatewayError;
use crate::response::Response;

verus! {

/// Where a request stands.
#[derive(Clone, Copy, Debug, PartialEq, Eq, Structural)]
pub enum Stage {
    /// Nothing has been looked at yet.
    Received,
    /// The credential was admitted.
    Authenticated,
    /// The body was decoded, and the record is to be handed to the broker
    /// client.
    Decoded,
    /// The broker client has the record.
    Submitted,
    /// The broker acknowledged the message.
    Acknowledged,
    /// The request was turned away, for the reason given.
    Rejected(GatewayError),
}

/// What happened to a request.
#[derive(Debug, PartialEq, Eq)]
pub enum Event {
    /// The credential header was read: its value, or `None` if there is none.
    Credential(Option<String>),
    /// The body was read: its length in bytes and the fields found in it, or
    /// `None` for a body that is not well formed.
    Payload { length: u64, parsed: Option<PublishData> },
    /// The record was handed to the broker client.
    Dispatched,
    /// The broker client reported on the delivery.
    Delivery(DeliveryOutcome),
}

/// An `Event`, as plain values.
pub enum EventView {
    Credential(Option<Seq<char>>),
    Payload { length: u64, parsed: Option<PublishDataView> },
    Dispatched,
    Delivery(DeliveryOutcome),
}

impl View for Event {
    type V = EventView;

    open spec fn view(&self) -> EventView {
        match *self {
            Event::Credential(header) => EventView::Credential(header.deep_view()),
            Event::Payload { length, parsed } => EventView::Payload {
                length,
                parsed: parsed_view(parsed),
            },
            Event::Dispatched => EventView::Dispatched,
            Event::Delivery(outcome) => EventView::Delivery(outcome),
        }
    }
}

/// What is to be done for a request next.
#[derive(Debug, PartialEq, Eq)]
pub enum Action {
    /// Read the body and report it.
    ReadBody,
    /// Hand this record to the broker client and report that it was done.
    Submit(Submission),
    /// Wait for the delivery report.
    AwaitDelivery,
    /// Answer the caller; where a termination is ordered, schedule it.
    Reply(Resolution),
    /// Nothing: the event does not belong to the stage that the request is in.
    Ignore,
}

/// An `Action`, as plain values.
pub enum ActionView {
    ReadBody,
    Submit(SubmissionView),
    AwaitDelivery,
    Reply(Resolution),
    Ignore,
}

impl View for Action {
    type V = ActionView;

    open spec fn view(&self) -> ActionView {
        match *self {
            Action::ReadBody => ActionView::ReadBody,
            Action::Submit(record) => ActionView::Submit(record@),
            Action::AwaitDelivery => ActionView::AwaitDelivery,
            Action::Reply(resolution) => ActionView::Reply(resolution),
            Action::Ignore => ActionView::Ignore,
        }
    }
}

/// The answer that turns a request away before anything was submitted. It
/// orders no termination.
pub open spec fn refusal(error: GatewayError) -> Resolution {
    Resolution { response: Response::Refused(error), termination: None }
}

/// The stage that follows a delivery report.
pub open spec fn stage_for(outcome: DeliveryOutcome) -> Stage {
    match outcome {
        DeliveryOutcome::Acknowledged => Stage::Acknowledged,
        DeliveryOutcome::Failed => Stage::Rejected(GatewayError::DeliveryFailure),
    }
}

/// One step of the machine: the next stage and the action to take.
///
/// - A received request whose credential the auth gate admits is authenticated
///   and its body is asked for; otherwise it is rejected as unauthorized.
/// - An authenticated request whose body decodes is decoded and its record is
///   to be submitted; otherwise it is rejected as malformed.
/// - A decoded request whose record was handed over is submitted.
/// - A submitted request is settled by the delivery report.
/// - Any other event changes nothing.
pub open spec fn spec_step<V: CredentialVerifier>(
    verifier: &V,
    stage: Stage,
    event: EventView,
) -> (Stage, ActionView) {
    match (stage, event) {
        (Stage::Received, EventView::Credential(header)) => {
            if gate_admits(verifier, header) {
                (Stage::Authenticated, ActionView::ReadBody)
            } else {
                (
                    Stage::Rejected(GatewayError::Unauthorized),
                    ActionView::Reply(refusal(GatewayError::Unauthorized)),
                )
            }
        },
        (Stage::Authenticated, EventView::Payload { length, parsed }) => {
            match decoded(length, parsed) {
                Some(intent) => (Stage::Decoded, ActionView::Submit(submission_of(intent))),
                None => (
                    Stage::Rejected(GatewayError::MalformedPayload),
                    ActionView::Reply(refusal(GatewayError::MalformedPayload)),
                ),
            }
        },
        (Stage::Decoded, EventView::Dispatched) => (Stage::Submitted, ActionView::AwaitDelivery),
        (Stage::Submitted, EventView::Delivery(outcome)) => (
            stage_for(outcome),
            ActionView::Reply(spec_settle(outcome)),
        ),
        _ => (stage, ActionView::Ignore),
    }
}

/// Advances a request by one event.
pub fn step<V: CredentialVerifier>(verifier: &V, stage: Stage, event: Event) -> (next: (
    Stage,
    Action,
))
    ensures
        (next.0, next.1@) == spec_step(verifier, stage, event@),
{
    match (stage, event) {
        (Stage::Received, Event::Credential(header)) => {
            let admitted = match &header {
                Some(supplied) => authorize(verifier, Some(supplied.as_str())),
                None => authorize(verifier, None),
            };
            match admitted {
                Ok(()) => (Stage::Authenticated, Action::ReadBody),
                Err(error) => (
                    Stage::Rejected(error),
                    Action::Reply(Resolution { response: Response::Refused(error), termination: None }),
                ),
            }
        },
        (Stage::Authenticated, Event::Payload { length, parsed }) => {
            match decode(length, parsed) {
                Ok(intent) => (Stage::Decoded, Action::Submit(submission_for(intent))),
                Err(error) => (
                    Stage::Rejected(error),
                    Action::Reply(Resolution { response: Response::Refused(error), termination: None }),
                ),
            }
        },
        (Stage::Decoded, Event::Dispatched) => (Stage::Submitted, Action::AwaitDelivery),
        (Stage::Submitted, Event::Delivery(outcome)) => {
            let next = match outcome {
                DeliveryOutcome::Acknowledged => Stage::Acknowledged,
                DeliveryOutcome::Failed => Stage::Rejected(GatewayError::DeliveryFailure),
            };
            (next, Action::Reply(settle(outcome)))
        },
        (stage, _) => (stage, Action::Ignore),
    }
}

} // verus!
