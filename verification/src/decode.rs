//! The request decoder: from the fields found in a request body to a publish
//! intent, or a refusal.

use vstd::prelude::*;
use crate::error::GatewayError;

verus! {

/// The largest request body that is accepted, in bytes.
pub const MAX_BODY_BYTES: u64 = 16384;

/// The fields that were found in a request body. A field that the body does
/// not hold is `None`.
#[derive(Clone, Debug, PartialEq, Eq)]
pub struct PublishData {
    pub topic: Option<String>,
    pub message: Option<String>,
}

/// What a `PublishData` holds, as plain text.
pub struct PublishDataView {
    pub topic: Option<Seq<char>>,
    pub message: Option<Seq<char>>,
}

impl View for PublishData {
    type V = PublishDataView;

    open spec fn view(&self) -> PublishDataView {
        PublishDataView { topic: self.topic.deep_view(), message: self.message.deep_view() }
    }
}

/// What a `PublishIntent` holds, as plain text.
pub struct IntentView {
    pub topic: Seq<char>,
    pub message: Seq<char>,
}

/// A message bound for a topic. The topic is never empty.
#[derive(Debug, PartialEq, Eq)]
pub struct PublishIntent {
    topic: String,
    message: String,
}

impl View for PublishIntent {
    type V = IntentView;

    closed spec fn view(&self) -> IntentView {
        IntentView { topic: self.topic@, message: self.message@ }
    }
}

impl PublishIntent {
    #[verifier::type_invariant]
    spec fn has_topic(&self) -> bool {
        self.topic@.len() > 0
    }

    /// An intent to publish `message` on `topic`, unless the topic is empty.
    /// Both texts are kept as they are.
    pub fn new(topic: String, message: String) -> (intent: Option<PublishIntent>)
        ensures
            intent is Some <==> topic@.len() > 0,
            intent matches Some(i) ==> i@ == (IntentView { topic: topic@, message: message@ }),
    {
        if topic.as_str().is_empty() {
            None
        } else {
            Some(PublishIntent { topic, message })
        }
    }

    /// The topic to publish on.
    pub fn topic(&self) -> (topic: &str)
        ensures
            topic@ == self@.topic,
            topic@.len() > 0,
    {
        proof {
            use_type_invariant(self);
        }
        self.topic.as_str()
    }

    /// The message to publish. It may be empty.
    pub fn message(&self) -> (message: &str)
        ensures
            message@ == self@.message,
    {
        self.message.as_str()
    }

    /// Gives up the intent for its topic and its message, in this order.
    pub fn into_parts(self) -> (parts: (String, String))
        ensures
            parts.0@ == self@.topic,
            parts.1@ == self@.message,
            parts.0@.len() > 0,
    {
        proof {
            use_type_invariant(&self);
        }
        (self.topic, self.message)
    }
}

/// The intent that a body of `length` bytes with the fields `parsed` stands
/// for. `parsed` is `None` for a body that is not well formed. There is an
/// intent only if the body is within the size limit, well formed, and holds
/// both fields with a topic that is not empty.
pub open spec fn decoded(length: u64, parsed: Option<PublishDataView>) -> Option<IntentView> {
    match parsed {
        Some(PublishDataView { topic: Some(topic), message: Some(message) }) => {
            if length <= MAX_BODY_BYTES && topic.len() > 0 {
                Some(IntentView { topic, message })
            } else {
                None
            }
        },
        _ => None,
    }
}

/// The view of the fields found in a body, if it was well formed.
pub open spec fn parsed_view(parsed: Option<PublishData>) -> Option<PublishDataView> {
    match parsed {
        Some(data) => Some(data@),
        None => None,
    }
}

/// Decodes a request body of `length` bytes whose fields are `parsed`
/// (`None` where the body is not well formed). The topic and the message are
/// passed through untouched.
pub fn decode(length: u64, parsed: Option<PublishData>) -> (outcome: Result<
    PublishIntent,
    GatewayError,
>)
    ensures
        match decoded(length, parsed_view(parsed)) {
            Some(intent) => outcome matches Ok(i) && i@ == intent,
            None => outcome matches Err(e) && e == GatewayError::MalformedPayload,
        },
{
    if length > MAX_BODY_BYTES {
        return Err(GatewayError::MalformedPayload);
    }
    match parsed {
        Some(PublishData { topic: Some(topic), message: Some(message) }) => {
            match PublishIntent::new(topic, message) {
                Some(intent) => Ok(intent),
                None => Err(GatewayError::MalformedPayload),
            }
        },
        _ => Err(GatewayError::MalformedPayload),
    }
}

} // verus!
