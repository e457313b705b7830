use publish_gateway::decode::{decode, PublishData, PublishIntent, MAX_BODY_BYTES};
use publish_gateway::error::GatewayError;

fn fields(topic: Option<&str>, message: Option<&str>) -> Option<PublishData> {
    Some(PublishData {
        topic: topic.map(|t| t.to_string()),
        message: message.map(|m| m.to_string()),
    })
}

#[test]
fn size_limit_is_sixteen_kibibytes() {
    assert_eq!(MAX_BODY_BYTES, 16384);
    assert_eq!(MAX_BODY_BYTES, 16 * 1024);
}

#[test]
fn well_formed_body_is_decoded() {
    let intent = decode(36, fields(Some("orders"), Some("hello"))).unwrap();
    assert_eq!(intent.topic(), "orders");
    assert_eq!(intent.message(), "hello");
}

#[test]
fn empty_message_is_allowed() {
    let intent = decode(30, fields(Some("orders"), Some(""))).unwrap();
    assert_eq!(intent.topic(), "orders");
    assert_eq!(intent.message(), "");
}

#[test]
fn topic_and_message_pass_through_untouched() {
    let intent = decode(64, fields(Some(" Orders/../\u{00e9}t\u{00e9} "), Some("  a\nb\t"))).unwrap();
    assert_eq!(intent.topic(), " Orders/../\u{00e9}t\u{00e9} ");
    assert_eq!(intent.message(), "  a\nb\t");
}

#[test]
fn body_at_the_limit_is_decoded() {
    let intent = decode(16384, fields(Some("orders"), Some("hello"))).unwrap();
    assert_eq!(intent.topic(), "orders");
    assert_eq!(decode(0, fields(Some("t"), Some("m"))).unwrap().message(), "m");
}

#[test]
fn body_over_the_limit_is_malformed() {
    assert_eq!(
        decode(16385, fields(Some("orders"), Some("hello"))),
        Err(GatewayError::MalformedPayload)
    );
    assert_eq!(
        decode(u64::MAX, fields(Some("orders"), Some("hello"))),
        Err(GatewayError::MalformedPayload)
    );
}

#[test]
fn unparsable_body_is_malformed() {
    assert_eq!(decode(10, None), Err(GatewayError::MalformedPayload));
}

#[test]
fn missing_topic_is_malformed() {
    assert_eq!(decode(20, fields(None, Some("hello"))), Err(GatewayError::MalformedPayload));
    assert_eq!(decode(2, fields(None, None)), Err(GatewayError::MalformedPayload));
}

#[test]
fn empty_topic_is_malformed() {
    assert_eq!(decode(30, fields(Some(""), Some("hello"))), Err(GatewayError::MalformedPayload));
}

#[test]
fn missing_message_is_malformed() {
    assert_eq!(decode(20, fields(Some("orders"), None)), Err(GatewayError::MalformedPayload));
}

#[test]
fn intent_needs_a_topic() {
    assert_eq!(PublishIntent::new(String::new(), "hello".to_string()), None);
    let intent = PublishIntent::new("orders".to_string(), String::new()).unwrap();
    assert_eq!(intent.topic(), "orders");
    assert_eq!(intent.message(), "");
    assert_eq!(intent.into_parts(), ("orders".to_string(), String::new()));
}
