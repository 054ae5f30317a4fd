//! The immutable description of one submitted job.

use vstd::prelude::*;

verus! {

/// An event class a webhook subscriber can filter on.
#[derive(Clone, Copy, Debug, PartialEq, Eq, Structural)]
pub enum WebhookEvent {
    Start,
    Output,
    Logs,
    Completed,
}

impl DeepView for WebhookEvent {
    type V = WebhookEvent;

    open spec fn deep_view(&self) -> WebhookEvent {
        *self
    }
}

/// What a caller submits: delivery preferences and the opaque input handed
/// to the execution engine. Immutable once stored in the slot.
pub struct Request {
    /// Where to deliver progress notifications, as URL text.
    pub webhook: Option<String>,
    /// Which event classes the webhook wants; `None` means all of them.
    pub webhook_event_filters: Option<Vec<WebhookEvent>>,
    /// Prefix prepended to any file outputs the job uploads.
    pub output_file_prefix: Option<String>,
    /// The job's input, passed through to the execution engine unread.
    pub input: serde_json::Value,
}

/// Mathematical model of a [`Request`].
#[verifier::ext_equal]
pub ghost struct RequestView {
    pub webhook: Option<Seq<char>>,
    pub webhook_event_filters: Option<Seq<WebhookEvent>>,
    pub output_file_prefix: Option<Seq<char>>,
    pub input: serde_json::Value,
}

impl DeepView for Request {
    type V = RequestView;

    open spec fn deep_view(&self) -> RequestView {
        self.view()
    }
}

impl View for Request {
    type V = RequestView;

    open spec fn view(&self) -> RequestView {
        RequestView {
            webhook: self.webhook.deep_view(),
            webhook_event_filters: self.webhook_event_filters.deep_view(),
            output_file_prefix: self.output_file_prefix.deep_view(),
            input: self.input,
        }
    }
}

} // verus!
