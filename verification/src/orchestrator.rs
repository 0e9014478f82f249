//! One request, from payload to response, as a state machine.
//!
//! The machine does no I/O. Its caller reads the payload, hands it in as an
//! event, performs the one fetch that the machine may ask for, and hands the
//! outcome back. Each step says what to do next.

use vstd::prelude::*;
use crate::decoder::{decode, lossy_decode};
use crate::extractor::{
    extract, extraction, no_metadata, parsable, selected_attr, selected_text, ExtractionResult,
    ExtractionView, CONTENT_ATTRIBUTE, DESCRIPTION_SELECTOR, TITLE_SELECTOR,
};

verus! {

/// A request to read the metadata of the page at `url`.
#[derive(Debug, PartialEq, Eq)]
pub struct CrawlRequest {
    pub url: String,
}

/// What a fetch brought back: the bytes of the response body. Their text is
/// taken to be UTF-8, and is decoded leniently.
#[derive(Debug, PartialEq, Eq)]
pub struct FetchedDocument {
    pub bytes: Vec<u8>,
}

/// Why a request failed.
#[derive(Debug, Clone, Copy, PartialEq, Eq, Structural)]
pub enum CrawlError {
    /// The payload is no request.
    MalformedInput,
    /// The `url` of the request is no absolute URL.
    InvalidUrl,
    /// The fetch itself failed.
    FetchError,
}

/// Where a request stands.
#[derive(Debug, Clone, Copy, PartialEq, Eq, Structural)]
pub enum State {
    /// Nothing has been read yet: the payload is awaited.
    Validate,
    /// A fetch has been asked for: its outcome is awaited.
    Fetch,
    /// The request has been answered.
    Done,
}

/// What the caller reports to the machine.
#[derive(Debug, PartialEq, Eq)]
pub enum Event {
    /// The payload could not be read as a request.
    Malformed,
    /// The payload was read as this request.
    Request(CrawlRequest),
    /// The fetch did not come back with a response.
    FetchFailed,
    /// The fetch came back with a response, with or without a body. An empty
    /// body counts as none.
    Fetched(Option<FetchedDocument>),
}

/// What the machine asks of its caller.
#[derive(Debug, PartialEq, Eq)]
pub enum Action {
    /// Issue one GET to this URL and report `FetchFailed` or `Fetched`.
    Fetch(String),
    /// Answer the request with this metadata.
    Respond(ExtractionResult),
    /// Answer the request with this failure.
    Fail(CrawlError),
}

/// One step of the machine: the state it moves to and what it asks for.
#[derive(Debug, PartialEq, Eq)]
pub struct Step {
    pub state: State,
    pub action: Action,
}

/// An `Event` over sequences.
pub enum EventView {
    Malformed,
    Request(Seq<char>),
    FetchFailed,
    Fetched(Option<Seq<u8>>),
}

/// An `Action` over sequences.
pub enum ActionView {
    Fetch(Seq<char>),
    Respond(ExtractionView),
    Fail(CrawlError),
}

/// A `Step` over sequences.
pub struct StepView {
    pub state: State,
    pub action: ActionView,
}

impl View for CrawlRequest {
    type V = Seq<char>;

    open spec fn view(&self) -> Seq<char> {
        self.url@
    }
}

impl View for FetchedDocument {
    type V = Seq<u8>;

    open spec fn view(&self) -> Seq<u8> {
        self.bytes@
    }
}

/// The bytes of a response body, where there is a body.
pub open spec fn body_bytes(body: Option<FetchedDocument>) -> Option<Seq<u8>> {
    match body {
        Some(document) => Some(document@),
        None => None,
    }
}

impl View for Event {
    type V = EventView;

    open spec fn view(&self) -> EventView {
        match self {
            Event::Malformed => EventView::Malformed,
            Event::Request(request) => EventView::Request(request@),
            Event::FetchFailed => EventView::FetchFailed,
            Event::Fetched(body) => EventView::Fetched(body_bytes(*body)),
        }
    }
}

impl View for Action {
    type V = ActionView;

    open spec fn view(&self) -> ActionView {
        match self {
            Action::Fetch(target) => ActionView::Fetch(target@),
            Action::Respond(result) => ActionView::Respond(result@),
            Action::Fail(error) => ActionView::Fail(*error),
        }
    }
}

impl View for Step {
    type V = StepView;

    open spec fn view(&self) -> StepView {
        StepView { state: self.state, action: self.action@ }
    }
}

/// `url::ParseError`, the error of `url::Url::parse`, as an opaque type.
#[verifier::external_type_specification]
#[verifier::external_body]
pub struct ExParseError(url::ParseError);

/// What `url::Url::parse` reads from `input`: the serialization of the
/// absolute URL, or `None` where it finds no absolute URL.
pub uninterp spec fn absolute_url(input: Seq<char>) -> Option<Seq<char>>;

/// Calls `url::Url::parse` and converts the URL that comes out into its
/// serialization. Trusted: that the outcome depends on `input` alone.
#[verifier::external_body]
fn parse_url(input: &str) -> (parsed: Result<String, url::ParseError>)
    ensures
        parsed is Ok <==> absolute_url(input@) is Some,
        parsed matches Ok(target) ==> absolute_url(input@) == Some(target@),
{
    url::Url::parse(input).map(String::from)
}

/// The metadata to respond with once the fetch has come back: that of the
/// decoded body, and none where the response has no body or an empty one.
pub open spec fn response_to(body: Option<Seq<u8>>) -> ExtractionView {
    match body {
        Some(bytes) => if bytes.len() == 0 {
            no_metadata()
        } else {
            extraction(lossy_decode(bytes))
        },
        None => no_metadata(),
    }
}

/// The step that leaves `Validate` once the URL has been looked at.
pub open spec fn validated(target: Option<Seq<char>>) -> StepView {
    match target {
        Some(url) => StepView { state: State::Fetch, action: ActionView::Fetch(url) },
        None => StepView { state: State::Done, action: ActionView::Fail(CrawlError::InvalidUrl) },
    }
}

/// The step that `event` causes in `state`; `None` where `state` does not
/// await `event`.
pub open spec fn transition(state: State, event: EventView) -> Option<StepView> {
    match (state, event) {
        (State::Validate, EventView::Malformed) => Some(
            StepView { state: State::Done, action: ActionView::Fail(CrawlError::MalformedInput) },
        ),
        (State::Validate, EventView::Request(url)) => Some(validated(absolute_url(url))),
        (State::Fetch, EventView::FetchFailed) => Some(
            StepView { state: State::Done, action: ActionView::Fail(CrawlError::FetchError) },
        ),
        (State::Fetch, EventView::Fetched(body)) => Some(
            StepView { state: State::Done, action: ActionView::Respond(response_to(body)) },
        ),
        _ => None,
    }
}

/// Validates the URL of `request`: the target to fetch, as `url` serializes
/// it, or `InvalidUrl`.
pub fn validate(request: &CrawlRequest) -> (target: Result<String, CrawlError>)
    ensures
        match target {
            Ok(url) => absolute_url(request@) == Some(url@),
            Err(error) => error == CrawlError::InvalidUrl && absolute_url(request@) is None,
        },
{
    match parse_url(request.url.as_str()) {
        Ok(url) => Ok(url),
        Err(_) => Err(CrawlError::InvalidUrl),
    }
}

/// The step that follows validation: a fetch of the target, or the failure.
pub fn after_validation(target: Result<String, CrawlError>) -> (step: Step)
    ensures
        match target {
            Ok(url) => step@ == (StepView { state: State::Fetch, action: ActionView::Fetch(url@) }),
            Err(error) => step@ == (StepView { state: State::Done, action: ActionView::Fail(error) }),
        },
{
    match target {
        Ok(url) => Step { state: State::Fetch, action: Action::Fetch(url) },
        Err(error) => Step { state: State::Done, action: Action::Fail(error) },
    }
}

/// The metadata to respond with for a response with this body. A body that is
/// absent or empty is no document: the fields are empty, and nothing is parsed.
pub fn respond(body: &Option<FetchedDocument>) -> (result: ExtractionResult)
    ensures
        result@ == response_to(body_bytes(*body)),
{
    match body {
        Some(document) => {
            if document.bytes.len() == 0 {
                ExtractionResult::empty()
            } else {
                let text = decode(document.bytes.as_slice());
                extract(text.as_str())
            }
        },
        None => ExtractionResult::empty(),
    }
}

/// Advances the request by one event. `None` where `state` does not await
/// `event`: nothing is to be done then, and the request stands where it stood.
pub fn handle(state: State, event: Event) -> (step: Option<Step>)
    ensures
        match step {
            Some(taken) => transition(state, event@) == Some(taken@),
            None => transition(state, event@) is None,
        },
{
    match state {
        State::Validate => match event {
            Event::Malformed => Some(
                Step { state: State::Done, action: Action::Fail(CrawlError::MalformedInput) },
            ),
            Event::Request(request) => Some(after_validation(validate(&request))),
            _ => None,
        },
        State::Fetch => match event {
            Event::FetchFailed => Some(
                Step { state: State::Done, action: Action::Fail(CrawlError::FetchError) },
            ),
            Event::Fetched(body) => Some(
                Step { state: State::Done, action: Action::Respond(respond(&body)) },
            ),
            _ => None,
        },
        State::Done => None,
    }
}

/// The actions that the machine asks for while `events` arrive one after
/// another, beginning in `state`. An event that the state does not await asks
/// for nothing.
pub open spec fn actions(state: State, events: Seq<EventView>) -> Seq<ActionView>
    decreases events.len(),
{
    if events.len() == 0 {
        Seq::empty()
    } else {
        match transition(state, events[0]) {
            Some(step) => seq![step.action] + actions(step.state, events.drop_first()),
            None => actions(state, events.drop_first()),
        }
    }
}

/// A request that has been answered asks for nothing more, whatever arrives.
pub proof fn law_done_is_final(events: Seq<EventView>)
    ensures
        actions(State::Done, events) == Seq::<ActionView>::empty(),
    decreases events.len(),
{
    if events.len() > 0 {
        law_done_is_final(events.drop_first());
    }
}

/// While a fetch is awaited the machine asks for one thing at most: the answer
/// to the request. It asks for no second fetch.
pub proof fn law_fetch_is_answered_once(events: Seq<EventView>)
    ensures
        ({
            let asked = actions(State::Fetch, events);
            ||| asked.len() == 0
            ||| asked.len() == 1 && (asked[0] is Respond || asked[0] == ActionView::Fail(
                CrawlError::FetchError,
            ))
        }),
    decreases events.len(),
{
    if events.len() > 0 {
        match transition(State::Fetch, events[0]) {
            Some(_) => {
                law_done_is_final(events.drop_first());
            },
            None => {
                law_fetch_is_answered_once(events.drop_first());
            },
        }
    }
}

/// Whatever arrives, one request leads to one fetch at most and to one answer
/// at most, and to metadata only after a fetch: the actions asked for are a
/// failure alone, or a fetch, which its answer may follow.
pub proof fn law_one_fetch_one_answer(events: Seq<EventView>)
    ensures
        ({
            let asked = actions(State::Validate, events);
            ||| asked.len() == 0
            ||| asked.len() == 1 && (asked[0] is Fetch || asked[0] == ActionView::Fail(
                CrawlError::MalformedInput,
            ) || asked[0] == ActionView::Fail(CrawlError::InvalidUrl))
            ||| asked.len() == 2 && asked[0] is Fetch && (asked[1] is Respond || asked[1]
                == ActionView::Fail(CrawlError::FetchError))
        }),
    decreases events.len(),
{
    if events.len() > 0 {
        match transition(State::Validate, events[0]) {
            Some(step) => {
                if step.state == State::Fetch {
                    law_fetch_is_answered_once(events.drop_first());
                } else {
                    law_done_is_final(events.drop_first());
                }
            },
            None => {
                law_one_fetch_one_answer(events.drop_first());
            },
        }
    }
}

/// A request whose `url` is no absolute URL fails with `InvalidUrl`, and no
/// fetch is asked for, then or later.
pub proof fn law_invalid_url_is_never_fetched(url: Seq<char>, later: Seq<EventView>)
    requires
        absolute_url(url) is None,
    ensures
        transition(State::Validate, EventView::Request(url)) == Some(
            StepView { state: State::Done, action: ActionView::Fail(CrawlError::InvalidUrl) },
        ),
        actions(State::Validate, seq![EventView::Request(url)] + later) == seq![
            ActionView::Fail(CrawlError::InvalidUrl),
        ],
{
    let events = seq![EventView::Request(url)] + later;
    assert(events.drop_first() =~= later);
    law_done_is_final(later);
}

/// A response is never a failure for want of metadata: once the fetch has come
/// back, with a body or without, the machine responds, and with empty fields
/// where the body is absent or empty.
pub proof fn law_fetched_is_answered(body: Option<Seq<u8>>)
    ensures
        transition(State::Fetch, EventView::Fetched(body)) == Some(
            StepView { state: State::Done, action: ActionView::Respond(response_to(body)) },
        ),
        body is None || body->0.len() == 0 ==> response_to(body) == no_metadata(),
{
}

/// What the machine asks for in the course of one request with `url` whose
/// fetch comes back with `body`.
pub open spec fn crawl(url: Seq<char>, body: Seq<u8>) -> Seq<ActionView> {
    actions(State::Validate, seq![EventView::Request(url), EventView::Fetched(Some(body))])
}

/// The page that a fetched body holds: its decoded text.
pub open spec fn page(body: Seq<u8>) -> Seq<char> {
    lossy_decode(body)
}

/// A request with a valid URL whose fetch comes back is fetched once, at the
/// URL as it serializes, and then answered with the metadata of the body.
pub proof fn law_fetched_request_is_answered(url: Seq<char>, body: Seq<u8>)
    requires
        absolute_url(url) is Some,
    ensures
        crawl(url, body) == seq![
            ActionView::Fetch(absolute_url(url)->0),
            ActionView::Respond(response_to(Some(body))),
        ],
{
    let events = seq![EventView::Request(url), EventView::Fetched(Some(body))];
    let rest = events.drop_first();
    assert(rest =~= seq![EventView::Fetched(Some(body))]);
    assert(rest.drop_first() =~= Seq::<EventView>::empty());
    reveal_with_fuel(actions, 3);
    assert(actions(State::Done, rest.drop_first()) =~= Seq::<ActionView>::empty());
    assert(actions(State::Fetch, rest) =~= seq![ActionView::Respond(response_to(Some(body)))]);
    assert(crawl(url, body) =~= seq![
        ActionView::Fetch(absolute_url(url)->0),
        ActionView::Respond(response_to(Some(body))),
    ]);
}

/// A request with a valid URL for a page that can be parsed and holds exactly
/// one title element is answered with that element's text as the title.
pub proof fn law_single_title_is_answered(url: Seq<char>, body: Seq<u8>)
    requires
        absolute_url(url) is Some,
        body.len() > 0,
        parsable(page(body)),
        selected_text(page(body), TITLE_SELECTOR@) matches Some(elements) && elements.len() == 1,
    ensures
        crawl(url, body).len() == 2,
        crawl(url, body)[1] matches ActionView::Respond(result) && result.title == selected_text(
            page(body),
            TITLE_SELECTOR@,
        )->0[0].flatten(),
{
    law_fetched_request_is_answered(url, body);
}

/// A request with a valid URL for a page that can be parsed and holds several
/// title elements is answered with the text of the first as the title. The
/// later ones have no influence: the answer is that for the page `trimmed`, in
/// which only the first of them is left and which is the same otherwise.
pub proof fn law_first_title_is_answered(url: Seq<char>, body: Seq<u8>, trimmed: Seq<u8>)
    requires
        absolute_url(url) is Some,
        body.len() > 0,
        trimmed.len() > 0,
        parsable(page(body)),
        parsable(page(trimmed)),
        selected_text(page(body), TITLE_SELECTOR@) matches Some(elements) && elements.len() > 1,
        selected_text(page(trimmed), TITLE_SELECTOR@) == Some(
            seq![selected_text(page(body), TITLE_SELECTOR@)->0[0]],
        ),
        selected_attr(page(trimmed), DESCRIPTION_SELECTOR@, CONTENT_ATTRIBUTE@) == selected_attr(
            page(body),
            DESCRIPTION_SELECTOR@,
            CONTENT_ATTRIBUTE@,
        ),
    ensures
        crawl(url, body).len() == 2,
        crawl(url, body)[1] matches ActionView::Respond(result) && result.title == selected_text(
            page(body),
            TITLE_SELECTOR@,
        )->0[0].flatten(),
        crawl(url, body) == crawl(url, trimmed),
{
    law_fetched_request_is_answered(url, body);
    law_fetched_request_is_answered(url, trimmed);
}

/// A request with a valid URL for a page that can be parsed and has a match of
/// the description selector is answered with the `content` of the first match
/// as the description, unchanged, and with the empty description where that
/// element has no `content`. Later matches have no influence: the formula
/// reads the first alone.
pub proof fn law_description_is_answered(url: Seq<char>, body: Seq<u8>)
    requires
        absolute_url(url) is Some,
        body.len() > 0,
        parsable(page(body)),
        selected_attr(page(body), DESCRIPTION_SELECTOR@, CONTENT_ATTRIBUTE@) matches Some(values)
            && values.len() > 0,
    ensures
        crawl(url, body).len() == 2,
        ({
            let first = selected_attr(page(body), DESCRIPTION_SELECTOR@, CONTENT_ATTRIBUTE@)->0[0];
            let description = match first {
                Some(content) => content,
                None => Seq::<char>::empty(),
            };
            crawl(url, body)[1] matches ActionView::Respond(result) && result.description
                == description
        }),
{
    law_fetched_request_is_answered(url, body);
}

/// A request with a valid URL for a page without a title element or without a
/// match of the description selector is answered with that field empty.
pub proof fn law_missing_metadata_is_answered_empty(url: Seq<char>, body: Seq<u8>)
    requires
        absolute_url(url) is Some,
    ensures
        crawl(url, body).len() == 2,
        crawl(url, body)[1] is Respond,
        selected_text(page(body), TITLE_SELECTOR@) == Some(Seq::<Seq<Seq<char>>>::empty())
            ==> crawl(url, body)[1]->Respond_0.title == Seq::<char>::empty(),
        selected_attr(page(body), DESCRIPTION_SELECTOR@, CONTENT_ATTRIBUTE@) == Some(
            Seq::<Option<Seq<char>>>::empty(),
        ) ==> crawl(url, body)[1]->Respond_0.description == Seq::<char>::empty(),
{
    law_fetched_request_is_answered(url, body);
}

/// A request with a valid URL whose fetch fails is answered with `FetchError`
/// after that one fetch: nothing is decoded or parsed.
pub proof fn law_failed_fetch_is_answered(url: Seq<char>)
    requires
        absolute_url(url) is Some,
    ensures
        actions(State::Validate, seq![EventView::Request(url), EventView::FetchFailed]) == seq![
            ActionView::Fetch(absolute_url(url)->0),
            ActionView::Fail(CrawlError::FetchError),
        ],
{
    let events = seq![EventView::Request(url), EventView::FetchFailed];
    let rest = events.drop_first();
    assert(rest =~= seq![EventView::FetchFailed]);
    assert(rest.drop_first() =~= Seq::<EventView>::empty());
    reveal_with_fuel(actions, 3);
    assert(actions(State::Done, rest.drop_first()) =~= Seq::<ActionView>::empty());
    assert(actions(State::Fetch, rest) =~= seq![ActionView::Fail(CrawlError::FetchError)]);
    assert(actions(State::Validate, events) =~= seq![
        ActionView::Fetch(absolute_url(url)->0),
        ActionView::Fail(CrawlError::FetchError),
    ]);
}

} // verus!
