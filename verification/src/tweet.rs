use vstd::prelude::*;

verus! {

/// How many matching messages the upstream held back since the connection was opened.
#[derive(Debug, Clone)]
pub struct Limit {
    pub track: u64,
    pub timestamp_ms: String,
}

/// A message with content.
#[derive(Debug, Clone)]
pub struct Content {
    pub created_at: String,
    pub text: String,
}

/// A rate-limit notice.
#[derive(Debug, Clone)]
pub struct ApiLimit {
    pub limit: Limit,
}

/// A notice that the upstream closes the stream.
#[derive(Debug, Clone)]
pub struct Disconnect {
    pub code: u16,
    pub stream_name: String,
    pub reason: String,
}

/// A warning that the client falls behind and may be disconnected.
#[derive(Debug, Clone)]
pub struct StallWarning {
    pub code: u16,
    pub stream_name: String,
    pub message: String,
    pub percent_full: u8,
}

/// A decoded message of the stream.
#[derive(Debug, Clone)]
pub enum Tweet {
    ApiLimit(ApiLimit),
    Content(Content),
    Disconnect(Disconnect),
    StallWarning(StallWarning),
}

/// The kinds of message that the pipeline tells apart.
#[derive(Clone, Copy, Debug, PartialEq, Eq, Structural)]
pub enum MessageKind {
    Content,
    RateLimitNotice,
    DisconnectNotice,
    StallWarning,
}

impl Tweet {
    /// The kind of the message.
    pub open spec fn kind_view(&self) -> MessageKind {
        match self {
            Tweet::ApiLimit(_) => MessageKind::RateLimitNotice,
            Tweet::Content(_) => MessageKind::Content,
            Tweet::Disconnect(_) => MessageKind::DisconnectNotice,
            Tweet::StallWarning(_) => MessageKind::StallWarning,
        }
    }

    /// The kind of the message.
    pub fn kind(&self) -> (kind: MessageKind)
        ensures
            kind == self.kind_view(),
    {
        match self {
            Tweet::ApiLimit(_) => MessageKind::RateLimitNotice,
            Tweet::Content(_) => MessageKind::Content,
            Tweet::Disconnect(_) => MessageKind::DisconnectNotice,
            Tweet::StallWarning(_) => MessageKind::StallWarning,
        }
    }
}

} // verus!
