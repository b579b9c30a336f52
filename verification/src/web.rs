//! What fetching a page yields, and the decisions taken between the steps of
//! a fetch. The transport itself lives with the caller: it reports each event
//! and carries out the step that is returned.

use vstd::prelude::*;

verus! {

/// The first and the last of the status codes that report success. A
/// response with one of them is accepted: its body is the page.
pub const FIRST_SUCCESS_STATUS: u16 = 200;

pub const LAST_SUCCESS_STATUS: u16 = 299;

/// What stands before the status line in the reason given for any other
/// status.
pub const STATUS_FAILURE_PREFIX: &'static str = "HTTP ";

/// The outcome of fetching one page: its text, or the reason there is none.
#[derive(Debug)]
pub struct WebsiteContent {
    pub content: Option<String>,
    pub error: Option<String>,
}

/// A `WebsiteContent` as plain text values.
pub struct WebsiteContentView {
    pub content: Option<Seq<char>>,
    pub error: Option<Seq<char>>,
}

impl View for WebsiteContent {
    type V = WebsiteContentView;

    open spec fn view(&self) -> WebsiteContentView {
        WebsiteContentView { content: self.content.deep_view(), error: self.error.deep_view() }
    }
}

/// The outcome that holds the page's text and no failure.
pub open spec fn page(text: Seq<char>) -> WebsiteContentView {
    WebsiteContentView { content: Some(text), error: None }
}

/// The outcome that holds a failure reason and no text.
pub open spec fn failure(reason: Seq<char>) -> WebsiteContentView {
    WebsiteContentView { content: None, error: Some(reason) }
}

impl WebsiteContentView {
    /// Exactly one of the text and the failure reason is present.
    pub open spec fn well_formed(self) -> bool {
        self.content is Some <==> self.error is None
    }
}

impl WebsiteContent {
    /// A successful fetch with the given text.
    pub fn success(content: String) -> (outcome: Self)
        ensures
            outcome@ == page(content@),
            outcome.content == Some(content),
    {
        WebsiteContent { content: Some(content), error: None }
    }

    /// A failed fetch with the given reason.
    pub fn error(message: String) -> (outcome: Self)
        ensures
            outcome@ == failure(message@),
            outcome.error == Some(message),
    {
        WebsiteContent { content: None, error: Some(message) }
    }
}

/// What the transport reports while a page is fetched.
#[derive(Debug)]
pub enum FetchEvent {
    /// No response arrived; the text says why.
    RequestFailed(String),
    /// A response arrived, with this status code and status line.
    Responded { status: u16, status_line: String },
    /// The body was read to its end: this is the page.
    BodyRead(String),
    /// Reading the body failed; the text says why.
    BodyFailed(String),
}

/// What follows an event.
#[derive(Debug)]
pub enum FetchStep {
    /// The response is acceptable: read its body and report how that went.
    ReadBody,
    /// The fetch is over, with this outcome.
    Finished(WebsiteContent),
}

/// Whether `status` reports success: it lies between `FIRST_SUCCESS_STATUS`
/// and `LAST_SUCCESS_STATUS`, both included. Every other status, whatever it
/// reports, is a reason to give the fetch up.
pub open spec fn success_status(status: u16) -> bool {
    FIRST_SUCCESS_STATUS <= status <= LAST_SUCCESS_STATUS
}

/// Tests whether `status` reports success.
pub fn is_success_status(status: u16) -> (accepted: bool)
    ensures
        accepted == success_status(status),
{
    FIRST_SUCCESS_STATUS <= status && status <= LAST_SUCCESS_STATUS
}

/// The failure reason given for a response whose status reports no success.
pub open spec fn status_failure(status_line: Seq<char>) -> Seq<char> {
    STATUS_FAILURE_PREFIX@ + status_line
}

/// Whether `step` ends the fetch with exactly `outcome`.
pub open spec fn finishes_with(step: FetchStep, outcome: WebsiteContentView) -> bool {
    step matches FetchStep::Finished(content) && content@ == outcome
}

/// Decides what follows `event`. A response is accepted where its status
/// reports success, that is from `FIRST_SUCCESS_STATUS` to
/// `LAST_SUCCESS_STATUS`: its body is then to be read. Any other status ends
/// the fetch with `HTTP ` and the status line as the reason. Failures of the
/// transport end it with the reason they carry, and a body that was read ends
/// it with the page.
pub fn after_event(event: FetchEvent) -> (step: FetchStep)
    ensures
        match event {
            FetchEvent::RequestFailed(reason) => finishes_with(step, failure(reason@)),
            FetchEvent::Responded { status, status_line } => if success_status(status) {
                step is ReadBody
            } else {
                finishes_with(step, failure(status_failure(status_line@)))
            },
            FetchEvent::BodyRead(text) => finishes_with(step, page(text@)),
            FetchEvent::BodyFailed(reason) => finishes_with(step, failure(reason@)),
        },
        step matches FetchStep::Finished(outcome) ==> outcome@.well_formed(),
{
    match event {
        FetchEvent::RequestFailed(reason) => FetchStep::Finished(WebsiteContent::error(reason)),
        FetchEvent::Responded { status, status_line } => {
            if is_success_status(status) {
                FetchStep::ReadBody
            } else {
                let message = String::from_str(STATUS_FAILURE_PREFIX).concat(status_line.as_str());
                FetchStep::Finished(WebsiteContent::error(message))
            }
        },
        FetchEvent::BodyRead(text) => FetchStep::Finished(WebsiteContent::success(text)),
        FetchEvent::BodyFailed(reason) => FetchStep::Finished(WebsiteContent::error(reason)),
    }
}

} // verus!
