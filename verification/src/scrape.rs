//! Reading a price off a quote page, one driver command at a time.
//!
//! The caller owns the automation session. It performs the action it was
//! handed, reports what came of it as an event, and gets the next action,
//! until the action is [`Action::Finish`].

use crate::error::{
    classify, error_of, fault_of, reported_fault, AutomationError, Fault, Operation,
};
use thirtyfour::error::WebDriverError;
use vstd::prelude::*;
use vstd::string::StringExecFns;

verus! {

/// What the URL of every quote page starts with; the ticker follows.
pub const QUOTE_URL_PREFIX: &'static str = "https://finance.yahoo.com/quote/";

/// Class that marks the element around the live price.
pub const PRICE_CLASS: &'static str = "livePrice";

/// Tag of the element, below the marked one, whose text is the price.
pub const PRICE_TAG: &'static str = "span";

/// The URL of a ticker's quote page: the ticker behind the prefix, as it is.
pub open spec fn quote_url_of(ticker: Seq<char>) -> Seq<char> {
    QUOTE_URL_PREFIX@ + ticker
}

/// Builds the URL of a ticker's quote page.
///
/// Every string is taken for a ticker and none is escaped: a ticker that
/// holds `/` or `?` reaches the URL as text like any other.
pub fn quote_url(ticker: &str) -> (url: String)
    ensures
        url@ == quote_url_of(ticker@),
{
    let mut url = String::from_str(QUOTE_URL_PREFIX);
    url.append(ticker);
    url
}

/// How an element is looked up.
#[derive(Debug, PartialEq, Eq)]
pub enum Locator {
    /// The first element whose class list holds the name.
    ClassName(String),
    /// The first element with the tag.
    Tag(String),
}

/// A locator as a plain value.
pub enum LocatorView {
    ClassName(Seq<char>),
    Tag(Seq<char>),
}

impl View for Locator {
    type V = LocatorView;

    open spec fn view(&self) -> LocatorView {
        match *self {
            Locator::ClassName(name) => LocatorView::ClassName(name@),
            Locator::Tag(tag) => LocatorView::Tag(tag@),
        }
    }
}

/// What the caller is to do next.
#[derive(Debug, PartialEq, Eq)]
pub enum Action {
    /// Load the page at `url`.
    Navigate { url: String },
    /// Look an element up in the page.
    FindInPage { locator: Locator },
    /// Look an element up below the one that the last lookup found.
    FindWithin { locator: Locator },
    /// Read the text of the element that the last lookup found.
    ReadText,
    /// Stop: the scrape has ended with `outcome`.
    Finish { outcome: Result<String, AutomationError> },
}

/// The outcome of a scrape as a plain value.
pub open spec fn outcome_view(outcome: Result<String, AutomationError>) -> Result<
    Seq<char>,
    AutomationError,
> {
    match outcome {
        Ok(price) => Ok(price@),
        Err(error) => Err(error),
    }
}

/// An action as a plain value.
pub enum ActionView {
    Navigate { url: Seq<char> },
    FindInPage { locator: LocatorView },
    FindWithin { locator: LocatorView },
    ReadText,
    Finish { outcome: Result<Seq<char>, AutomationError> },
}

impl View for Action {
    type V = ActionView;

    open spec fn view(&self) -> ActionView {
        match *self {
            Action::Navigate { url } => ActionView::Navigate { url: url@ },
            Action::FindInPage { locator } => ActionView::FindInPage { locator: locator@ },
            Action::FindWithin { locator } => ActionView::FindWithin { locator: locator@ },
            Action::ReadText => ActionView::ReadText,
            Action::Finish { outcome } => ActionView::Finish { outcome: outcome_view(outcome) },
        }
    }
}

/// What came of the last action.
#[derive(Debug, PartialEq, Eq)]
pub enum Event {
    /// The page has loaded.
    Navigated,
    /// The lookup found an element.
    Found,
    /// The element's text was read.
    Text(String),
    /// The driver reported a fault.
    Failed(Fault),
}

/// An event as a plain value.
pub enum EventView {
    Navigated,
    Found,
    Text(Seq<char>),
    Failed(Fault),
}

impl View for Event {
    type V = EventView;

    open spec fn view(&self) -> EventView {
        match *self {
            Event::Navigated => EventView::Navigated,
            Event::Found => EventView::Found,
            Event::Text(text) => EventView::Text(text@),
            Event::Failed(fault) => EventView::Failed(fault),
        }
    }
}

impl Event {
    /// The event that reports a driver error: a failure with the fault that
    /// the error reports.
    pub fn from_driver_error(error: &WebDriverError) -> (event: Event)
        ensures
            event@ == EventView::Failed(reported_fault(*error)),
    {
        Event::Failed(fault_of(error))
    }
}

/// How far a scrape has come: the command whose result it waits for.
#[derive(Clone, Copy, Debug, PartialEq, Eq, Structural)]
pub enum Phase {
    /// The page is loading.
    Navigating,
    /// The element with the price class is looked up in the page.
    FindingContainer,
    /// The price element is looked up below the marked one.
    FindingPrice,
    /// The text of the price element is read.
    ReadingText,
    /// The scrape has ended.
    Finished,
}

impl Phase {
    /// The operation that the driver is busy with in this phase, if any.
    pub open spec fn pending(self) -> Option<Operation> {
        match self {
            Phase::Navigating => Some(Operation::Navigate),
            Phase::FindingContainer | Phase::FindingPrice => Some(Operation::Lookup),
            Phase::ReadingText => Some(Operation::ReadText),
            Phase::Finished => None,
        }
    }
}

/// The step that ends a scrape with an error.
pub open spec fn fail(error: AutomationError) -> (Phase, ActionView) {
    (Phase::Finished, ActionView::Finish { outcome: Err(error) })
}

/// The first action of a scrape: loading the ticker's quote page.
pub open spec fn first_action(ticker: Seq<char>) -> ActionView {
    ActionView::Navigate { url: quote_url_of(ticker) }
}

/// The phase and the action that follow when `event` arrives in `phase`.
///
/// The page is loaded, the marked element is looked up in it, the price
/// element below that one, and its text is the price. A fault ends the scrape
/// with the error it stands for. An event that the pending command cannot
/// bring, or any event after the end, is a protocol error.
pub open spec fn next(phase: Phase, event: EventView) -> (Phase, ActionView) {
    match (phase, event) {
        (Phase::Navigating, EventView::Navigated) => (
            Phase::FindingContainer,
            ActionView::FindInPage { locator: LocatorView::ClassName(PRICE_CLASS@) },
        ),
        (Phase::FindingContainer, EventView::Found) => (
            Phase::FindingPrice,
            ActionView::FindWithin { locator: LocatorView::Tag(PRICE_TAG@) },
        ),
        (Phase::FindingPrice, EventView::Found) => (Phase::ReadingText, ActionView::ReadText),
        (Phase::ReadingText, EventView::Text(text)) => (
            Phase::Finished,
            ActionView::Finish { outcome: Ok(text) },
        ),
        (_, EventView::Failed(fault)) => match phase.pending() {
            Some(operation) => fail(error_of(operation, fault)),
            None => fail(AutomationError::ProtocolError),
        },
        _ => fail(AutomationError::ProtocolError),
    }
}

/// How a scrape ends when it starts in `phase` and meets `events` in turn:
/// the outcome of the first step that finishes it, or `None` while it is
/// still under way. Events behind the end are not looked at.
pub open spec fn outcome_of(phase: Phase, events: Seq<EventView>) -> Option<
    Result<Seq<char>, AutomationError>,
>
    decreases events.len(),
{
    if events.len() == 0 {
        None
    } else {
        let (then, action) = next(phase, events[0]);
        match action {
            ActionView::Finish { outcome } => Some(outcome),
            _ => outcome_of(then, events.drop_first()),
        }
    }
}

/// Starts a scrape for `ticker`.
pub fn begin(ticker: &str) -> (start: (Phase, Action))
    ensures
        start.0 == Phase::Navigating,
        start.1@ == first_action(ticker@),
{
    (Phase::Navigating, Action::Navigate { url: quote_url(ticker) })
}

/// Takes a scrape one step on: the phase and the action that follow `event`.
pub fn advance(phase: Phase, event: Event) -> (step: (Phase, Action))
    ensures
        (step.0, step.1@) == next(phase, event@),
{
    match event {
        Event::Failed(fault) => {
            let error = match phase {
                Phase::Navigating => classify(Operation::Navigate, fault),
                Phase::FindingContainer | Phase::FindingPrice => classify(
                    Operation::Lookup,
                    fault,
                ),
                Phase::ReadingText => classify(Operation::ReadText, fault),
                Phase::Finished => AutomationError::ProtocolError,
            };
            (Phase::Finished, Action::Finish { outcome: Err(error) })
        },
        Event::Navigated => match phase {
            Phase::Navigating => (
                Phase::FindingContainer,
                Action::FindInPage {
                    locator: Locator::ClassName(String::from_str(PRICE_CLASS)),
                },
            ),
            _ => (Phase::Finished, Action::Finish { outcome: Err(AutomationError::ProtocolError) }),
        },
        Event::Found => match phase {
            Phase::FindingContainer => (
                Phase::FindingPrice,
                Action::FindWithin { locator: Locator::Tag(String::from_str(PRICE_TAG)) },
            ),
            Phase::FindingPrice => (Phase::ReadingText, Action::ReadText),
            _ => (Phase::Finished, Action::Finish { outcome: Err(AutomationError::ProtocolError) }),
        },
        Event::Text(text) => match phase {
            Phase::ReadingText => (Phase::Finished, Action::Finish { outcome: Ok(text) }),
            _ => (Phase::Finished, Action::Finish { outcome: Err(AutomationError::ProtocolError) }),
        },
    }
}

} // verus!
