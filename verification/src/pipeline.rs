//! The submission pipeline: one submission from raw URL to stored listing.
//!
//! The pipeline is a state machine. It does no I/O itself: [`step`] takes the
//! stage a submission is in and what just happened, and returns the next stage
//! and what to do next: fetch the marker, write the listing, or answer the
//! request. Whoever drives it performs the action and reports how it ended.
//!
//! ```text
//! Start --Submitted--> Normalized --Fetched--> CategoryValid --Stored--> Persisted
//! ```
//!
//! Between `Normalized` and `CategoryValid` the submission is verified: the
//! marker's content is in hand and is taken, as it is, for the category that
//! the owner claims. Every stage but the last two can fail; the first failure
//! ends the submission.
//!
//! Admission comes before all this: [`Entry::of`] says what follows its
//! decision, and a submission that is turned away never reaches `Start`.

use vstd::prelude::*;
use crate::admission::Decision;
use crate::category::{category_verdict, is_category, validate_category, CategoryError};
use crate::models::{NewListing, NewListingForm, NewListingView};
use crate::normalize::{
    is_web_url,
    marker_address,
    marker_of,
    normalized,
    parse_url,
    parts_make_href,
    url_parse,
    with_segments,
    NormalizedUrl,
    NormalizedUrlView,
    UrlError,
    UrlErrorView,
    MARKER_FILE,
    WELL_KNOWN_SEGMENT,
};
use crate::ownership::{
    check_url,
    checked,
    FetchOutcome,
    FetchOutcomeView,
    VerifyError,
    VerifyErrorView,
};

verus! {

/// How the write of a listing ended.
#[derive(Debug, PartialEq, Eq)]
pub enum StoreOutcome {
    /// The listing is stored: inserted, or updated in place.
    Stored,
    /// The store refused or lost the write.
    WriteFailed,
    /// The store could not be reached; the cause is kept.
    Unavailable(String),
}

/// Why a submission ended without a listing.
#[derive(Debug, PartialEq, Eq)]
pub enum SubmissionError {
    /// The raw string is no URL of an accepted scheme.
    Url(UrlError),
    /// Ownership could not be shown.
    Verification(VerifyError),
    /// The marker's content is no category.
    InvalidCategory(CategoryError),
    /// The listing could not be written; what is surfaced is kept.
    PersistFailed(String),
    /// The request was turned away at admission.
    AdmissionRejected,
    /// The request ran out of time.
    AdmissionTimeout,
}

/// Where a submission stands.
#[derive(Debug, PartialEq, Eq)]
pub enum Stage {
    /// Nothing has happened yet.
    Start,
    /// The URL is normalized; the marker is being fetched.
    Normalized(NormalizedUrl),
    /// The marker's content is a valid category, kept here; the listing is being written.
    CategoryValid(String),
    /// The listing is stored under the category kept here.
    Persisted(String),
    /// The submission failed.
    Failed(SubmissionError),
}

/// What happened to a submission.
#[derive(Debug, PartialEq, Eq)]
pub enum Event {
    /// The form arrived.
    Submitted(NewListingForm),
    /// The fetch of the marker ended.
    Fetched(FetchOutcome),
    /// The write of the listing ended.
    Stored(StoreOutcome),
    /// The request's time is up.
    TimedOut,
}

/// The answer to a request.
#[derive(Debug, PartialEq, Eq)]
pub enum Reply {
    /// The submission form again, with a message in it: status 200.
    Page(String),
    /// A server fault with its text: status 500.
    ServerError(String),
}

/// What to do next for a submission.
#[derive(Debug, PartialEq, Eq)]
pub enum Action {
    /// Fetch the marker from this address and report a `Fetched`.
    Fetch(String),
    /// Insert this listing, or update the one with its URL, and report a `Stored`.
    Upsert(NewListing),
    /// Answer the request; the submission is over.
    Respond(Reply),
    /// The event does not belong to the stage: nothing changes.
    Ignore,
}

/// How a submission enters, once admission has decided on it.
#[derive(Debug, PartialEq, Eq)]
pub enum Entry {
    /// The pipeline runs now.
    Run,
    /// The pipeline runs at the instant kept here.
    Wait(u64),
    /// The pipeline does not run: the request is answered with this.
    Refuse(Reply),
}

/// The mathematical value of an [`Entry`].
pub ghost enum EntryView {
    Run,
    Wait(u64),
    Refuse(ReplyView),
}

/// The mathematical value of a [`StoreOutcome`].
pub ghost enum StoreOutcomeView {
    Stored,
    WriteFailed,
    Unavailable(Seq<char>),
}

/// The mathematical value of a [`SubmissionError`].
pub ghost enum SubmissionErrorView {
    Url(UrlErrorView),
    Verification(VerifyErrorView),
    InvalidCategory(CategoryError),
    PersistFailed(Seq<char>),
    AdmissionRejected,
    AdmissionTimeout,
}

/// The mathematical value of a [`Stage`].
pub ghost enum StageView {
    Start,
    Normalized(NormalizedUrlView),
    CategoryValid(Seq<char>),
    Persisted(Seq<char>),
    Failed(SubmissionErrorView),
}

/// The mathematical value of an [`Event`].
pub ghost enum EventView {
    Submitted(Seq<char>),
    Fetched(FetchOutcomeView),
    Stored(StoreOutcomeView),
    TimedOut,
}

/// The mathematical value of a [`Reply`].
pub ghost enum ReplyView {
    Page(Seq<char>),
    ServerError(Seq<char>),
}

/// The mathematical value of an [`Action`].
pub ghost enum ActionView {
    Fetch(Seq<char>),
    Upsert(NewListingView),
    Respond(ReplyView),
    Ignore,
}

impl View for StoreOutcome {
    type V = StoreOutcomeView;

    open spec fn view(&self) -> StoreOutcomeView {
        match self {
            StoreOutcome::Stored => StoreOutcomeView::Stored,
            StoreOutcome::WriteFailed => StoreOutcomeView::WriteFailed,
            StoreOutcome::Unavailable(c) => StoreOutcomeView::Unavailable(c@),
        }
    }
}

impl View for SubmissionError {
    type V = SubmissionErrorView;

    open spec fn view(&self) -> SubmissionErrorView {
        match self {
            SubmissionError::Url(e) => SubmissionErrorView::Url(e@),
            SubmissionError::Verification(e) => SubmissionErrorView::Verification(e@),
            SubmissionError::InvalidCategory(e) => SubmissionErrorView::InvalidCategory(*e),
            SubmissionError::PersistFailed(d) => SubmissionErrorView::PersistFailed(d@),
            SubmissionError::AdmissionRejected => SubmissionErrorView::AdmissionRejected,
            SubmissionError::AdmissionTimeout => SubmissionErrorView::AdmissionTimeout,
        }
    }
}

impl View for Stage {
    type V = StageView;

    open spec fn view(&self) -> StageView {
        match self {
            Stage::Start => StageView::Start,
            Stage::Normalized(u) => StageView::Normalized(u@),
            Stage::CategoryValid(c) => StageView::CategoryValid(c@),
            Stage::Persisted(c) => StageView::Persisted(c@),
            Stage::Failed(e) => StageView::Failed(e@),
        }
    }
}

impl View for Event {
    type V = EventView;

    open spec fn view(&self) -> EventView {
        match self {
            Event::Submitted(form) => EventView::Submitted(form@),
            Event::Fetched(o) => EventView::Fetched(o@),
            Event::Stored(o) => EventView::Stored(o@),
            Event::TimedOut => EventView::TimedOut,
        }
    }
}

impl View for Reply {
    type V = ReplyView;

    open spec fn view(&self) -> ReplyView {
        match self {
            Reply::Page(m) => ReplyView::Page(m@),
            Reply::ServerError(m) => ReplyView::ServerError(m@),
        }
    }
}

impl View for Entry {
    type V = EntryView;

    open spec fn view(&self) -> EntryView {
        match self {
            Entry::Run => EntryView::Run,
            Entry::Wait(until) => EntryView::Wait(*until),
            Entry::Refuse(r) => EntryView::Refuse(r@),
        }
    }
}

impl View for Action {
    type V = ActionView;

    open spec fn view(&self) -> ActionView {
        match self {
            Action::Fetch(a) => ActionView::Fetch(a@),
            Action::Upsert(l) => ActionView::Upsert(l@),
            Action::Respond(r) => ActionView::Respond(r@),
            Action::Ignore => ActionView::Ignore,
        }
    }
}

impl SubmissionErrorView {
    /// Whether the fault lies with what the submitter sent or serves. Such a
    /// failure is answered with the form and a message, never with an error status.
    pub open spec fn is_caller_input(self) -> bool {
        self is Url || self is Verification || self is InvalidCategory
    }

    /// The text of the failure.
    pub open spec fn message(self) -> Seq<char> {
        match self {
            SubmissionErrorView::Url(e) => e.message(),
            SubmissionErrorView::Verification(e) => e.message(),
            SubmissionErrorView::InvalidCategory(e) => e.message_text(),
            SubmissionErrorView::PersistFailed(d) => d,
            SubmissionErrorView::AdmissionRejected => "service overloaded"@,
            SubmissionErrorView::AdmissionTimeout => "request timed out"@,
        }
    }

    /// The answer that a failure is given.
    pub open spec fn reply(self) -> ReplyView {
        if self.is_caller_input() {
            ReplyView::Page(self.message())
        } else {
            ReplyView::ServerError(self.message())
        }
    }
}

impl StageView {
    /// Whether the submission is over.
    pub open spec fn is_terminal(self) -> bool {
        self is Persisted || self is Failed
    }

    /// How far the submission has come: the number of steps behind it, the
    /// end counting as the third.
    pub open spec fn progress(self) -> nat {
        match self {
            StageView::Start => 0,
            StageView::Normalized(_) => 1,
            StageView::CategoryValid(_) => 2,
            StageView::Persisted(_) => 3,
            StageView::Failed(_) => 3,
        }
    }
}

impl ReplyView {
    /// The HTTP status of the answer.
    pub open spec fn status(self) -> int {
        match self {
            ReplyView::Page(_) => 200,
            ReplyView::ServerError(_) => 500,
        }
    }

    /// The text of the answer.
    pub open spec fn message(self) -> Seq<char> {
        match self {
            ReplyView::Page(m) => m,
            ReplyView::ServerError(m) => m,
        }
    }
}

/// The confirmation shown once a listing is stored.
pub open spec fn success_message(category: Seq<char>) -> Seq<char> {
    "successfully added to the "@ + category + " category!"@
}

/// What is surfaced when the store refuses a write.
pub open spec fn write_failure_text() -> Seq<char> {
    "error saving listing"@
}

/// What follows a decision of admission: an accepted submission runs, one
/// that is held back waits for its instant, and one that is turned away is
/// answered as an admission rejection is.
pub open spec fn entered(decision: Decision) -> EntryView {
    match decision {
        Decision::Accepted => EntryView::Run,
        Decision::Delayed { until } => EntryView::Wait(until),
        Decision::Rejected => EntryView::Refuse(SubmissionErrorView::AdmissionRejected.reply()),
    }
}

/// The end of a submission that failed with `e`.
pub open spec fn failed(e: SubmissionErrorView) -> (StageView, ActionView) {
    (StageView::Failed(e), ActionView::Respond(e.reply()))
}

/// From `Start`: the raw URL is normalized, and the marker is asked for at
/// the address derived from it. A URL that gives no such address, for want of
/// a path or for its length, is an invalid URL.
pub open spec fn on_submitted(raw: Seq<char>) -> (StageView, ActionView) {
    match normalized(raw) {
        Err(e) => failed(SubmissionErrorView::Url(e)),
        Ok(u) => match marker_of(raw) {
            Err(d) => failed(SubmissionErrorView::Url(UrlErrorView::InvalidUrl(d))),
            Ok(m) => (StageView::Normalized(u), ActionView::Fetch(m)),
        },
    }
}

/// Once verified: the marker's content is validated as the category, and
/// the write of the pair is asked for.
pub open spec fn on_verified(url: NormalizedUrlView, content: Seq<char>) -> (StageView, ActionView) {
    match category_verdict(content) {
        Err(e) => failed(SubmissionErrorView::InvalidCategory(e)),
        Ok(c) => (
            StageView::CategoryValid(c),
            ActionView::Upsert(NewListingView { category: c, url: url.href }),
        ),
    }
}

/// From `Normalized`: the fetch is judged, and what it brought is validated.
pub open spec fn on_fetched(url: NormalizedUrlView, outcome: FetchOutcomeView) -> (
    StageView,
    ActionView,
) {
    match checked(outcome) {
        Err(e) => failed(SubmissionErrorView::Verification(e)),
        Ok(content) => on_verified(url, content),
    }
}

/// From `CategoryValid`: the write is judged, and the request answered.
pub open spec fn on_stored(category: Seq<char>, outcome: StoreOutcomeView) -> (StageView, ActionView) {
    match outcome {
        StoreOutcomeView::Stored => (
            StageView::Persisted(category),
            ActionView::Respond(ReplyView::Page(success_message(category))),
        ),
        StoreOutcomeView::WriteFailed => failed(
            SubmissionErrorView::PersistFailed(write_failure_text()),
        ),
        StoreOutcomeView::Unavailable(cause) => failed(SubmissionErrorView::PersistFailed(cause)),
    }
}

/// The pipeline's transition function. An event that does not belong to the
/// stage changes nothing; in particular nothing moves a submission that is over.
pub open spec fn step_model(stage: StageView, event: EventView) -> (StageView, ActionView) {
    match (stage, event) {
        (StageView::Start, EventView::Submitted(raw)) => on_submitted(raw),
        (StageView::Normalized(url), EventView::Fetched(outcome)) => on_fetched(url, outcome),
        (StageView::CategoryValid(category), EventView::Stored(outcome)) => on_stored(
            category,
            outcome,
        ),
        (StageView::Start, EventView::TimedOut) => failed(SubmissionErrorView::AdmissionTimeout),
        (StageView::Normalized(_), EventView::TimedOut) => failed(
            SubmissionErrorView::AdmissionTimeout,
        ),
        (StageView::CategoryValid(_), EventView::TimedOut) => failed(
            SubmissionErrorView::AdmissionTimeout,
        ),
        _ => (stage, ActionView::Ignore),
    }
}

impl SubmissionError {
    /// Whether the fault lies with what the submitter sent or serves.
    pub fn is_caller_input(&self) -> (r: bool)
        ensures
            r == self@.is_caller_input(),
    {
        match self {
            SubmissionError::Url(_) => true,
            SubmissionError::Verification(_) => true,
            SubmissionError::InvalidCategory(_) => true,
            _ => false,
        }
    }

    /// The text of the failure.
    pub fn message(&self) -> (text: String)
        ensures
            text@ == self@.message(),
    {
        match self {
            SubmissionError::Url(e) => e.message(),
            SubmissionError::Verification(e) => e.message(),
            SubmissionError::InvalidCategory(e) => e.message().to_owned(),
            SubmissionError::PersistFailed(d) => d.clone(),
            SubmissionError::AdmissionRejected => "service overloaded".to_owned(),
            SubmissionError::AdmissionTimeout => "request timed out".to_owned(),
        }
    }

    /// The answer that the failure is given: the form with the message for a
    /// fault of the submitter's, a server error for any other.
    pub fn reply(&self) -> (r: Reply)
        ensures
            r@ == self@.reply(),
    {
        if self.is_caller_input() {
            Reply::Page(self.message())
        } else {
            Reply::ServerError(self.message())
        }
    }
}

impl Reply {
    /// The HTTP status of the answer.
    pub fn status(&self) -> (code: u16)
        ensures
            code == self@.status(),
    {
        match self {
            Reply::Page(_) => 200,
            Reply::ServerError(_) => 500,
        }
    }

    /// The text of the answer.
    pub fn message(&self) -> (text: &str)
        ensures
            text@ == self@.message(),
    {
        match self {
            Reply::Page(m) => m.as_str(),
            Reply::ServerError(m) => m.as_str(),
        }
    }
}

impl Stage {
    /// Whether the submission is over.
    pub fn is_terminal(&self) -> (r: bool)
        ensures
            r == self@.is_terminal(),
    {
        match self {
            Stage::Persisted(_) => true,
            Stage::Failed(_) => true,
            _ => false,
        }
    }
}

impl Entry {
    /// What follows a decision of admission, before the pipeline runs. An
    /// accepted submission runs; one that is held back waits for its instant;
    /// one that is turned away is answered at once with a server error, and
    /// never reaches the pipeline.
    pub fn of(decision: Decision) -> (entry: Entry)
        ensures
            entry@ == entered(decision),
            decision is Rejected ==> entry@ == EntryView::Refuse(
                ReplyView::ServerError("service overloaded"@),
            ),
    {
        match decision {
            Decision::Accepted => Entry::Run,
            Decision::Delayed { until } => Entry::Wait(until),
            Decision::Rejected => Entry::Refuse(SubmissionError::AdmissionRejected.reply()),
        }
    }
}

/// Ends a submission with a failure.
fn fail(e: SubmissionError) -> (r: (Stage, Action))
    ensures
        (r.0@, r.1@) == failed(e@),
{
    let reply = e.reply();
    (Stage::Failed(e), Action::Respond(reply))
}

/// Takes a submission from `Start`: normalizes the raw URL and asks for the
/// marker below it.
///
/// The marker is asked for at the submitted URL with the two well-known
/// segments appended to its path: scheme, credentials, host, port, query and
/// fragment are those of the URL, and nothing of its path is dropped or
/// replaced. The URL itself, as it was before, is what the listing is stored
/// under.
pub fn submit(form: NewListingForm) -> (r: (Stage, Action))
    ensures
        (r.0@, r.1@) == on_submitted(form@),
        r.1@ matches ActionView::Fetch(address) ==> {
            &&& is_web_url(url_parse(form@))
            &&& address == with_segments(
                url_parse(form@)->Ok_0,
                WELL_KNOWN_SEGMENT@,
                MARKER_FILE@,
            )
            &&& parts_make_href(url_parse(form@)->Ok_0)
            &&& r.0@ matches StageView::Normalized(url)
            &&& url.href == url_parse(form@)->Ok_0.href
        },
{
    let raw = form.url;
    match parse_url(raw.clone()) {
        Err(e) => fail(SubmissionError::Url(e)),
        Ok(url) => match marker_address(raw.as_str()) {
            Err(d) => fail(SubmissionError::Url(UrlError::InvalidUrl(d))),
            Ok(marker) => (Stage::Normalized(url), Action::Fetch(marker)),
        },
    }
}

/// Takes a verified submission on: validates the marker's content as the
/// category and asks for the pair to be written.
pub fn verified(url: NormalizedUrl, content: String) -> (r: (Stage, Action))
    ensures
        (r.0@, r.1@) == on_verified(url@, content@),
        r.1@ matches ActionView::Upsert(listing) ==> is_category(listing.category)
            && listing.url == url@.href,
{
    match validate_category(content) {
        Err(e) => fail(SubmissionError::InvalidCategory(e)),
        Ok(category) => {
            let listing = NewListing { category: category.clone(), url: url.as_str().to_owned() };
            (Stage::CategoryValid(category), Action::Upsert(listing))
        },
    }
}

/// Takes a submission from `Normalized`: judges the fetch of the marker and
/// validates what it brought.
pub fn fetched(url: NormalizedUrl, outcome: FetchOutcome) -> (r: (Stage, Action))
    ensures
        (r.0@, r.1@) == on_fetched(url@, outcome@),
{
    match check_url(outcome) {
        Err(e) => fail(SubmissionError::Verification(e)),
        Ok(content) => verified(url, content),
    }
}

/// Takes a submission from `CategoryValid`: judges the write and answers the
/// request.
pub fn stored(category: String, outcome: StoreOutcome) -> (r: (Stage, Action))
    ensures
        (r.0@, r.1@) == on_stored(category@, outcome@),
{
    match outcome {
        StoreOutcome::Stored => {
            let message = "successfully added to the ".to_owned().concat(category.as_str()).concat(
                " category!",
            );
            (Stage::Persisted(category), Action::Respond(Reply::Page(message)))
        },
        StoreOutcome::WriteFailed => fail(
            SubmissionError::PersistFailed("error saving listing".to_owned()),
        ),
        StoreOutcome::Unavailable(cause) => fail(SubmissionError::PersistFailed(cause)),
    }
}

/// Moves a submission by one event: returns the stage it is in afterwards and
/// what to do next.
pub fn step(stage: Stage, event: Event) -> (r: (Stage, Action))
    ensures
        (r.0@, r.1@) == step_model(stage@, event@),
{
    match (stage, event) {
        (Stage::Start, Event::Submitted(form)) => submit(form),
        (Stage::Normalized(url), Event::Fetched(outcome)) => fetched(url, outcome),
        (Stage::CategoryValid(category), Event::Stored(outcome)) => stored(category, outcome),
        (Stage::Start, Event::TimedOut) => fail(SubmissionError::AdmissionTimeout),
        (Stage::Normalized(_), Event::TimedOut) => fail(SubmissionError::AdmissionTimeout),
        (Stage::CategoryValid(_), Event::TimedOut) => fail(SubmissionError::AdmissionTimeout),
        (stage, _) => (stage, Action::Ignore),
    }
}

/// A submission that is over stays as it is: no event moves it, and nothing
/// more is asked for. So the first failure is the last thing that happens.
pub proof fn lemma_terminal_stage_absorbs(stage: StageView, event: EventView)
    requires
        stage.is_terminal(),
    ensures
        step_model(stage, event) == (stage, ActionView::Ignore),
{
}

/// A submission only moves forward, and whatever is asked for moves it. The
/// marker is asked for on leaving `Start`, the write on leaving `Normalized`,
/// and the answer is given on reaching the end: so one submission fetches at
/// most once, writes at most once, and is answered at most once.
pub proof fn lemma_submission_moves_forward(stage: StageView, event: EventView)
    ensures
        ({
            let (next, action) = step_model(stage, event);
            &&& stage.progress() <= next.progress()
            &&& action is Ignore <==> next == stage
            &&& !(action is Ignore) ==> stage.progress() < next.progress()
            &&& action is Fetch ==> stage.progress() == 0 && next.progress() == 1
            &&& action is Upsert ==> stage.progress() == 1 && next.progress() == 2
            &&& action is Respond <==> !stage.is_terminal() && next.is_terminal()
        }),
{
}

/// A step that fails answers the request at once: with the form and the
/// failure's message, status 200, where the submitter is at fault; with a
/// server error, status 500, where the store or admission is.
pub proof fn lemma_failure_is_answered(stage: StageView, event: EventView)
    requires
        !stage.is_terminal(),
    ensures
        step_model(stage, event).0 matches StageView::Failed(e) ==> {
            &&& step_model(stage, event).1 == ActionView::Respond(e.reply())
            &&& e.reply().status() == (if e.is_caller_input() { 200int } else { 500int })
            &&& e.is_caller_input() <==> !(e is PersistFailed || e is AdmissionRejected
                || e is AdmissionTimeout)
        },
{
}

/// A listing is written only for a submission that went through every check:
/// the step that asks for the write is the one that takes a normalized URL and
/// a fetched marker, the category written is the marker's content validated,
/// and the URL written is the normalized URL before the marker's segments.
pub proof fn lemma_write_needs_verification(stage: StageView, event: EventView)
    ensures
        step_model(stage, event).1 matches ActionView::Upsert(listing) ==> {
            &&& stage matches StageView::Normalized(url)
            &&& event matches EventView::Fetched(FetchOutcomeView::Body(content))
            &&& category_verdict(content) == Ok::<Seq<char>, CategoryError>(listing.category)
            &&& is_category(listing.category)
            &&& listing.url == url.href
            &&& step_model(stage, event).0 == StageView::CategoryValid(listing.category)
        },
{
    if step_model(stage, event).1 is Upsert {
        let content = event->Fetched_0->Body_0;
        crate::category::lemma_accepted_is_category(content);
    }
}

/// The whole course of a submission that succeeds. For a raw URL that
/// normalizes to `url` and has its marker at `marker`, and a marker whose
/// content validates to `category`: the marker is asked for at `marker`; the
/// pair `(category, url.href)` is asked to be written; and once stored the
/// request is answered, status 200, with a confirmation that holds the
/// category.
pub proof fn lemma_accepted_submission(
    raw: Seq<char>,
    content: Seq<char>,
    url: NormalizedUrlView,
    marker: Seq<char>,
    category: Seq<char>,
)
    requires
        normalized(raw) == Ok::<NormalizedUrlView, UrlErrorView>(url),
        marker_of(raw) == Ok::<Seq<char>, crate::normalize::UrlDefectView>(marker),
        category_verdict(content) == Ok::<Seq<char>, CategoryError>(category),
    ensures
        ({
            let first = step_model(StageView::Start, EventView::Submitted(raw));
            let second = step_model(first.0, EventView::Fetched(FetchOutcomeView::Body(content)));
            let third = step_model(second.0, EventView::Stored(StoreOutcomeView::Stored));
            &&& first.1 == ActionView::Fetch(marker)
            &&& second.1 == ActionView::Upsert(NewListingView { category, url: url.href })
            &&& third.0 == StageView::Persisted(category)
            &&& third.1 == ActionView::Respond(ReplyView::Page(success_message(category)))
            &&& success_message(category).subrange(
                "successfully added to the "@.len() as int,
                ("successfully added to the "@.len() + category.len()) as int,
            ) == category
        }),
{
    let prefix = "successfully added to the "@;
    assert(success_message(category).subrange(
        prefix.len() as int,
        (prefix.len() + category.len()) as int,
    ) =~= category);
}

/// A marker that cannot be fetched ends the submission: the request is
/// answered with the form and the cause, and no write is ever asked for.
pub proof fn lemma_fetch_failure_writes_nothing(
    url: NormalizedUrlView,
    cause: Seq<char>,
    later: EventView,
)
    ensures
        ({
            let failure = SubmissionErrorView::Verification(VerifyErrorView::FetchError(cause));
            let first = step_model(
                StageView::Normalized(url),
                EventView::Fetched(FetchOutcomeView::TransportFailed(cause)),
            );
            &&& first.0 == StageView::Failed(failure)
            &&& first.1 == ActionView::Respond(ReplyView::Page("error fetching url: "@ + cause))
            &&& step_model(first.0, later) == (first.0, ActionView::Ignore)
        }),
{
}

} // verus!
