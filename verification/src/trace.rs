//! Whole runs of the request lifecycle, and what holds of every run.
//!
//! A run is any sequence of events fed to the machine, starting from
//! `Received`. Nothing is assumed of the order or the number of the events.

use vstd::prelude::*;
use crate::auth::{gate_admits, CredentialVerifier, StaticCredential};
use crate::decode::{decoded, PublishDataView, MAX_BODY_BYTES};
use crate::delivery::{
    spec_settle, submission_of, DeliveryOutcome, Termination, TERMINATION_DELAY_SECS,
    TERMINATION_EXIT_CODE,
};
use crate::error::GatewayError;
use crate::lifecycle::{refusal, spec_step, stage_for, ActionView, EventView, Stage};
use crate::response::Response;

verus! {

/// The stage of a request after the first `n` events of a run.
pub open spec fn stage_after<V: CredentialVerifier>(
    verifier: &V,
    events: Seq<EventView>,
    n: nat,
) -> Stage
    decreases n,
{
    if n == 0 {
        Stage::Received
    } else {
        spec_step(verifier, stage_after(verifier, events, (n - 1) as nat), events[n - 1]).0
    }
}

/// The action that the machine orders on event number `i` of a run.
pub open spec fn action_at<V: CredentialVerifier>(
    verifier: &V,
    events: Seq<EventView>,
    i: nat,
) -> ActionView {
    spec_step(verifier, stage_after(verifier, events, i), events[i as int]).1
}

/// Whether an event brings a credential that the auth gate admits.
pub open spec fn brings_admitted_credential<V: CredentialVerifier>(
    verifier: &V,
    event: EventView,
) -> bool {
    event matches EventView::Credential(header) && gate_admits(verifier, header)
}

/// Whether an event brings a body that decodes.
pub open spec fn brings_decodable_body(event: EventView) -> bool {
    event matches EventView::Payload { length, parsed } && decoded(length, parsed) is Some
}

/// How far a stage is along the way of a request.
pub open spec fn progress(stage: Stage) -> nat {
    match stage {
        Stage::Received => 0,
        Stage::Authenticated => 1,
        Stage::Decoded => 2,
        Stage::Submitted => 3,
        Stage::Acknowledged => 4,
        Stage::Rejected(_) => 4,
    }
}

/// A request never moves backwards, and one that is acknowledged or rejected
/// stays as it is.
pub proof fn lemma_no_way_back<V: CredentialVerifier>(
    verifier: &V,
    events: Seq<EventView>,
    m: nat,
    n: nat,
)
    requires
        m <= n <= events.len(),
    ensures
        progress(stage_after(verifier, events, m)) <= progress(stage_after(verifier, events, n)),
        progress(stage_after(verifier, events, m)) == 4 ==> stage_after(verifier, events, n)
            == stage_after(verifier, events, m),
    decreases n,
{
    if m < n {
        lemma_no_way_back(verifier, events, m, (n - 1) as nat);
    }
}

/// Without an admitted credential a request gets nowhere: it is still
/// `Received`, or it was rejected as unauthorized.
proof fn lemma_stuck_without_credential<V: CredentialVerifier>(
    verifier: &V,
    events: Seq<EventView>,
    n: nat,
)
    requires
        n <= events.len(),
        forall|j: int| 0 <= j < n ==> !brings_admitted_credential(verifier, #[trigger] events[j]),
    ensures
        stage_after(verifier, events, n) == Stage::Received || stage_after(verifier, events, n)
            == Stage::Rejected(GatewayError::Unauthorized),
    decreases n,
{
    if n > 0 {
        lemma_stuck_without_credential(verifier, events, (n - 1) as nat);
    }
}

/// Without a body that decodes a request gets no further than
/// `Authenticated`, and is rejected only as unauthorized or malformed.
proof fn lemma_stuck_without_body<V: CredentialVerifier>(
    verifier: &V,
    events: Seq<EventView>,
    n: nat,
)
    requires
        n <= events.len(),
        forall|j: int| 0 <= j < n ==> !brings_decodable_body(#[trigger] events[j]),
    ensures
        ({
            let stage = stage_after(verifier, events, n);
            ||| stage == Stage::Received
            ||| stage == Stage::Authenticated
            ||| stage == Stage::Rejected(GatewayError::Unauthorized)
            ||| stage == Stage::Rejected(GatewayError::MalformedPayload)
        }),
    decreases n,
{
    if n > 0 {
        lemma_stuck_without_body(verifier, events, (n - 1) as nat);
    }
}

/// Nothing is submitted to the broker without a credential that was
/// admitted before, and what is submitted is the record of the body that the
/// event brought: under its topic, with the empty key and its message.
pub proof fn lemma_submission_follows_admission<V: CredentialVerifier>(
    verifier: &V,
    events: Seq<EventView>,
    i: nat,
)
    requires
        i < events.len(),
        action_at(verifier, events, i) is Submit,
    ensures
        exists|j: int| 0 <= j < i && brings_admitted_credential(verifier, #[trigger] events[j]),
        events[i as int] matches EventView::Payload { length, parsed } && (decoded(
            length,
            parsed,
        ) matches Some(intent) && action_at(verifier, events, i) == ActionView::Submit(
            submission_of(intent),
        )),
{
    if forall|j: int| 0 <= j < i ==> !brings_admitted_credential(verifier, #[trigger] events[j]) {
        lemma_stuck_without_credential(verifier, events, i);
    }
}

/// A request is submitted at most once.
pub proof fn lemma_single_submission<V: CredentialVerifier>(
    verifier: &V,
    events: Seq<EventView>,
    i: nat,
    k: nat,
)
    requires
        i < events.len(),
        k < events.len(),
        action_at(verifier, events, i) is Submit,
        action_at(verifier, events, k) is Submit,
    ensures
        i == k,
{
    if i < k {
        assert(stage_after(verifier, events, i + 1) == Stage::Decoded);
        lemma_no_way_back(verifier, events, i + 1, k);
    } else if k < i {
        assert(stage_after(verifier, events, k + 1) == Stage::Decoded);
        lemma_no_way_back(verifier, events, k + 1, i);
    }
}

/// A request whose credential header is missing, or differs from the
/// configured value, or for which no value is configured, is answered with a
/// rejection, and nothing of it is ever submitted to the broker.
pub proof fn lemma_bad_credential_is_rejected(
    verifier: &StaticCredential,
    events: Seq<EventView>,
    i: nat,
)
    requires
        i < events.len(),
        forall|j: int|
            0 <= j < events.len() ==> (#[trigger] events[j] matches EventView::Credential(header)
                ==> header is None || verifier.expected() != header),
    ensures
        !(action_at(verifier, events, i) is Submit),
        action_at(verifier, events, i) matches ActionView::Reply(resolution)
            ==> resolution == refusal(GatewayError::Unauthorized),
        events[i as int] is Credential && stage_after(verifier, events, i) == Stage::Received
            ==> action_at(verifier, events, i) == ActionView::Reply(
            refusal(GatewayError::Unauthorized),
        ),
{
    assert forall|j: int| 0 <= j < i implies !brings_admitted_credential(
        verifier,
        #[trigger] events[j],
    ) by {}
    lemma_stuck_without_credential(verifier, events, i);
}

/// A request whose body is longer than the limit is answered with a
/// rejection, and nothing of it is ever submitted to the broker.
pub proof fn lemma_oversized_body_is_rejected<V: CredentialVerifier>(
    verifier: &V,
    events: Seq<EventView>,
    i: nat,
)
    requires
        i < events.len(),
        forall|j: int|
            0 <= j < events.len() ==> (#[trigger] events[j] matches EventView::Payload {
                length,
                ..
            } ==> length > MAX_BODY_BYTES),
    ensures
        !(action_at(verifier, events, i) is Submit),
        action_at(verifier, events, i) matches ActionView::Reply(resolution)
            ==> resolution.response is Refused,
        events[i as int] is Payload && stage_after(verifier, events, i) == Stage::Authenticated
            ==> action_at(verifier, events, i) == ActionView::Reply(
            refusal(GatewayError::MalformedPayload),
        ),
{
    assert forall|j: int| 0 <= j < i implies !brings_decodable_body(#[trigger] events[j]) by {}
    lemma_stuck_without_body(verifier, events, i);
}

/// A request whose body has no topic, or an empty one, is answered with a
/// rejection, and nothing of it is ever submitted to the broker.
pub proof fn lemma_missing_topic_is_rejected<V: CredentialVerifier>(
    verifier: &V,
    events: Seq<EventView>,
    i: nat,
)
    requires
        i < events.len(),
        forall|j: int|
            0 <= j < events.len() ==> (#[trigger] events[j] matches EventView::Payload {
                parsed: Some(data),
                ..
            } ==> (data.topic matches Some(topic) ==> topic.len() == 0)),
    ensures
        !(action_at(verifier, events, i) is Submit),
        action_at(verifier, events, i) matches ActionView::Reply(resolution)
            ==> resolution.response is Refused,
        events[i as int] is Payload && stage_after(verifier, events, i) == Stage::Authenticated
            ==> action_at(verifier, events, i) == ActionView::Reply(
            refusal(GatewayError::MalformedPayload),
        ),
{
    assert forall|j: int| 0 <= j < i implies !brings_decodable_body(#[trigger] events[j]) by {}
    lemma_stuck_without_body(verifier, events, i);
}

/// The process is ordered to end only on the report of a failed delivery of
/// a submitted record, and then always after the fixed delay and with the
/// fixed exit code. Every such report gives the order anew.
pub proof fn lemma_termination_follows_failure<V: CredentialVerifier>(
    verifier: &V,
    events: Seq<EventView>,
    i: nat,
)
    requires
        i < events.len(),
    ensures
        (action_at(verifier, events, i) matches ActionView::Reply(resolution)
            && resolution.termination is Some) <==> (stage_after(verifier, events, i)
            == Stage::Submitted && events[i as int] == EventView::Delivery(
            DeliveryOutcome::Failed,
        )),
        action_at(verifier, events, i) matches ActionView::Reply(resolution) ==> (
        resolution.termination matches Some(order) ==> order == (Termination {
            delay_secs: TERMINATION_DELAY_SECS,
            exit_code: TERMINATION_EXIT_CODE,
        }) && resolution.response == Response::Refused(GatewayError::DeliveryFailure)),
{
}

/// Success is reported only for a delivery that the broker acknowledged, of a
/// record that was submitted.
pub proof fn lemma_success_follows_acknowledgment<V: CredentialVerifier>(
    verifier: &V,
    events: Seq<EventView>,
    i: nat,
)
    requires
        i < events.len(),
    ensures
        (action_at(verifier, events, i) matches ActionView::Reply(resolution)
            && resolution.response == Response::Published) <==> (stage_after(verifier, events, i)
            == Stage::Submitted && events[i as int] == EventView::Delivery(
            DeliveryOutcome::Acknowledged,
        )),
{
}

/// The stage of a request after all the events of a run.
pub open spec fn final_stage<V: CredentialVerifier>(verifier: &V, events: Seq<EventView>) -> Stage {
    stage_after(verifier, events, events.len())
}

/// The events of a request that is read, handed over and reported on in
/// turn.
pub open spec fn orderly_run(
    header: Option<Seq<char>>,
    length: u64,
    parsed: Option<PublishDataView>,
    outcome: DeliveryOutcome,
) -> Seq<EventView> {
    seq![
        EventView::Credential(header),
        EventView::Payload { length, parsed },
        EventView::Dispatched,
        EventView::Delivery(outcome),
    ]
}

/// A request with an admitted credential and a body that decodes is
/// submitted as the record of its body, and is then answered as the delivery
/// report says: with success if the broker acknowledged the message, and
/// else with a refusal and the order to end the process.
pub proof fn lemma_orderly_run<V: CredentialVerifier>(
    verifier: &V,
    header: Option<Seq<char>>,
    length: u64,
    parsed: Option<PublishDataView>,
    outcome: DeliveryOutcome,
)
    requires
        gate_admits(verifier, header),
        decoded(length, parsed) is Some,
    ensures
        ({
            let events = orderly_run(header, length, parsed, outcome);
            &&& action_at(verifier, events, 0) == ActionView::ReadBody
            &&& action_at(verifier, events, 1) == ActionView::Submit(
                submission_of(decoded(length, parsed)->0),
            )
            &&& action_at(verifier, events, 2) == ActionView::AwaitDelivery
            &&& action_at(verifier, events, 3) == ActionView::Reply(spec_settle(outcome))
            &&& final_stage(verifier, events) == stage_for(outcome)
        }),
{
    let events = orderly_run(header, length, parsed, outcome);
    assert(stage_after(verifier, events, 0) == Stage::Received);
    assert(stage_after(verifier, events, 1) == Stage::Authenticated);
    assert(stage_after(verifier, events, 2) == Stage::Decoded);
    assert(stage_after(verifier, events, 3) == Stage::Submitted);
    assert(stage_after(verifier, events, 4) == stage_for(outcome));
}

/// The stages of `requests` requests after a feed of events, each of which
/// is addressed to one request by its number. An event for a number that no
/// request has is dropped.
pub open spec fn stages_after_feed<V: CredentialVerifier>(
    verifier: &V,
    requests: nat,
    feed: Seq<(nat, EventView)>,
) -> Seq<Stage>
    decreases feed.len(),
{
    if feed.len() == 0 {
        Seq::new(requests, |r: int| Stage::Received)
    } else {
        let before = stages_after_feed(verifier, requests, feed.drop_last());
        let (r, event) = feed.last();
        if r < requests {
            before.update(r as int, spec_step(verifier, before[r as int], event).0)
        } else {
            before
        }
    }
}

/// The events of a feed that are addressed to request `r`, in their order.
pub open spec fn own_events(feed: Seq<(nat, EventView)>, r: nat) -> Seq<EventView>
    decreases feed.len(),
{
    if feed.len() == 0 {
        Seq::empty()
    } else if feed.last().0 == r {
        own_events(feed.drop_last(), r).push(feed.last().1)
    } else {
        own_events(feed.drop_last(), r)
    }
}

/// The stage after the first `n` events depends on those events alone.
proof fn lemma_stage_of_prefix<V: CredentialVerifier>(
    verifier: &V,
    events: Seq<EventView>,
    longer: Seq<EventView>,
    n: nat,
)
    requires
        n <= events.len() <= longer.len(),
        forall|j: int| 0 <= j < n ==> events[j] == longer[j],
    ensures
        stage_after(verifier, events, n) == stage_after(verifier, longer, n),
    decreases n,
{
    if n > 0 {
        lemma_stage_of_prefix(verifier, events, longer, (n - 1) as nat);
    }
}

/// Requests do not depend on each other: whatever the order in which the
/// events of several requests arrive, each request ends where its own events
/// alone take it.
pub proof fn lemma_requests_independent<V: CredentialVerifier>(
    verifier: &V,
    requests: nat,
    feed: Seq<(nat, EventView)>,
    r: nat,
)
    requires
        r < requests,
    ensures
        stages_after_feed(verifier, requests, feed).len() == requests,
        stages_after_feed(verifier, requests, feed)[r as int] == final_stage(
            verifier,
            own_events(feed, r),
        ),
    decreases feed.len(),
{
    if feed.len() > 0 {
        let earlier = feed.drop_last();
        let (to, event) = feed.last();
        lemma_requests_independent(verifier, requests, earlier, r);
        if to < requests {
            lemma_requests_independent(verifier, requests, earlier, to);
        }
        if to == r {
            let own = own_events(earlier, r);
            lemma_stage_of_prefix(verifier, own, own.push(event), own.len());
        }
    }
}

} // verus!
