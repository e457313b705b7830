use publish_gateway::decode::PublishIntent;
use publish_gateway::delivery::{
    failure_notice, settle, submission_for, DeliveryOutcome, Resolution, Submission, Termination,
    TERMINATION_DELAY_SECS, TERMINATION_EXIT_CODE,
};
use publish_gateway::error::GatewayError;
use publish_gateway::response::{
    health_reply, Response, ALIVE, STATUS_BAD_GATEWAY, STATUS_BAD_REQUEST, STATUS_OK,
    STATUS_UNAUTHORIZED,
};

#[test]
fn record_carries_the_intent_under_the_empty_key() {
    let intent = PublishIntent::new("orders".to_string(), "hello".to_string()).unwrap();
    assert_eq!(
        submission_for(intent),
        Submission {
            topic: "orders".to_string(),
            key: String::new(),
            payload: "hello".to_string(),
        }
    );
}

#[test]
fn acknowledged_delivery_is_answered_with_success() {
    assert_eq!(
        settle(DeliveryOutcome::Acknowledged),
        Resolution { response: Response::Published, termination: None }
    );
}

#[test]
fn failed_delivery_is_refused_and_ends_the_process() {
    let resolution = settle(DeliveryOutcome::Failed);
    assert_eq!(resolution.response, Response::Refused(GatewayError::DeliveryFailure));
    assert_eq!(resolution.termination, Some(Termination { delay_secs: 60, exit_code: 0 }));
}

#[test]
fn termination_is_after_sixty_seconds_with_code_zero() {
    assert_eq!(TERMINATION_DELAY_SECS, 60);
    assert_eq!(TERMINATION_EXIT_CODE, 0);
}

#[test]
fn failure_notice_quotes_the_detail() {
    assert_eq!(
        failure_notice("MessageProduction (BrokerTransportFailure)"),
        "Failed to send message: MessageProduction (BrokerTransportFailure)"
    );
    assert_eq!(failure_notice(""), "Failed to send message: ");
}

#[test]
fn success_has_status_200() {
    assert_eq!(Response::Published.status(), 200);
    assert_eq!(STATUS_OK, 200);
}

#[test]
fn refusals_have_error_statuses() {
    assert_eq!(Response::Refused(GatewayError::Unauthorized).status(), 401);
    assert_eq!(Response::Refused(GatewayError::MalformedPayload).status(), 400);
    assert_eq!(Response::Refused(GatewayError::DeliveryFailure).status(), 502);
    assert_eq!(STATUS_UNAUTHORIZED, 401);
    assert_eq!(STATUS_BAD_REQUEST, 400);
    assert_eq!(STATUS_BAD_GATEWAY, 502);
}

#[test]
fn health_is_alive() {
    assert_eq!(health_reply(), (200, "alive"));
    assert_eq!(ALIVE, "alive");
}
