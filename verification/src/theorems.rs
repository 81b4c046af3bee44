//! What holds of every scrape and of every reply.

use crate::error::{error_of, reported_fault, AutomationError, Fault, Operation};
use thirtyfour::error::WebDriverError;
use crate::reply::{reply_for, ReplyView, ERROR_BODY};
use crate::scrape::{next, outcome_of, quote_url_of, EventView, Phase, QUOTE_URL_PREFIX};
use vstd::prelude::*;

verus! {

/// The events of a scrape that meets the page it expects: the page loads,
/// both lookups find their element, and the read brings `text`.
pub open spec fn rendered(text: Seq<char>) -> Seq<EventView> {
    seq![EventView::Navigated, EventView::Found, EventView::Found, EventView::Text(text)]
}

/// The reply to a request whose scrape meets `events` in turn, or `None`
/// while the scrape is still under way.
pub open spec fn reply_to(events: Seq<EventView>) -> Option<ReplyView> {
    match outcome_of(Phase::Navigating, events) {
        Some(outcome) => Some(reply_for(outcome)),
        None => None,
    }
}

/// The reply to every request that failed.
pub open spec fn failure_reply() -> ReplyView {
    ReplyView { status: 500, body: ERROR_BODY@ }
}

/// Where the page renders the expected markup, the scrape ends with the text
/// of the price element, and the reply has status 200 and that text, as it
/// was read, for its body.
pub proof fn lemma_rendered_price_is_replied(text: Seq<char>)
    ensures
        outcome_of(Phase::Navigating, rendered(text)) == Some(
            Ok::<Seq<char>, AutomationError>(text),
        ),
        reply_to(rendered(text)) == Some(ReplyView { status: 200, body: text }),
{
    let events = rendered(text);
    let after_load = events.drop_first();
    let after_container = after_load.drop_first();
    let after_price = after_container.drop_first();
    assert(after_load[0] == EventView::Found);
    assert(after_container[0] == EventView::Found);
    assert(after_price[0] == EventView::Text(text));
    assert(outcome_of(Phase::ReadingText, after_price) == Some(
        Ok::<Seq<char>, AutomationError>(text),
    ));
    assert(outcome_of(Phase::FindingPrice, after_container) == outcome_of(
        Phase::ReadingText,
        after_price,
    ));
    assert(outcome_of(Phase::FindingContainer, after_load) == outcome_of(
        Phase::FindingPrice,
        after_container,
    ));
}

/// A scrape ends with a price only along one path: the page loaded, both
/// lookups found their element, and the price is the text that the read of
/// this scrape brought.
pub proof fn lemma_price_is_text_read(events: Seq<EventView>, price: Seq<char>)
    requires
        outcome_of(Phase::Navigating, events) == Some(Ok::<Seq<char>, AutomationError>(price)),
    ensures
        events.len() >= 4,
        events.subrange(0, 4) == rendered(price),
{
    reveal_with_fuel(outcome_of, 5);
    let after_load = events.drop_first();
    let after_container = after_load.drop_first();
    let after_price = after_container.drop_first();
    assert(events.len() >= 4);
    assert(events[0] == EventView::Navigated);
    assert(after_load[0] == EventView::Found);
    assert(after_container[0] == EventView::Found);
    assert(after_price[0] == EventView::Text(price));
    assert(events.subrange(0, 4) =~= rendered(price));
}

/// Every failure gets the same reply: status 500 and the fixed body. Which
/// error ended the scrape cannot be read off the reply.
pub proof fn lemma_failure_reply_is_fixed(error: AutomationError)
    ensures
        reply_for(Err(error)) == failure_reply(),
{
}

/// Every reply either carries a price with status 200 or is the one reply
/// to a failure.
pub proof fn lemma_reply_is_price_or_fixed(events: Seq<EventView>)
    ensures
        match reply_to(events) {
            Some(reply) => (reply.status == 200 && events.len() >= 4 && events.subrange(0, 4)
                == rendered(reply.body)) || reply == failure_reply(),
            None => events.len() < 4,
        },
{
    match outcome_of(Phase::Navigating, events) {
        Some(Ok(price)) => {
            lemma_price_is_text_read(events, price);
        },
        Some(Err(_)) => {},
        None => {
            if events.len() >= 4 {
                lemma_scrape_ends(events);
            }
        },
    }
}

/// Where the page holds no element with the price class, whatever the driver
/// reports for the lookup, the reply is the one to a failure; where it
/// reports that no element matched, the scrape ended with `ElementNotFound`.
pub proof fn lemma_missing_marker_fails(fault: Fault)
    ensures
        outcome_of(Phase::Navigating, seq![EventView::Navigated, EventView::Failed(fault)]) == Some(
            Err::<Seq<char>, AutomationError>(error_of(Operation::Lookup, fault)),
        ),
        error_of(Operation::Lookup, Fault::NoSuchElement) == AutomationError::ElementNotFound,
        reply_to(seq![EventView::Navigated, EventView::Failed(fault)]) == Some(failure_reply()),
{
    let events = seq![EventView::Navigated, EventView::Failed(fault)];
    let after_load = events.drop_first();
    assert(after_load[0] == EventView::Failed(fault));
    assert(outcome_of(Phase::FindingContainer, after_load) == Some(
        Err::<Seq<char>, AutomationError>(error_of(Operation::Lookup, fault)),
    ));
}

/// A scrape that meets a driver error while a command is pending ends at
/// once, with the error that the fault reported by the driver stands for in
/// that operation; the request is answered with the reply to a failure.
pub proof fn lemma_driver_error_is_told_apart(
    phase: Phase,
    operation: Operation,
    error: WebDriverError,
)
    requires
        phase.pending() == Some(operation),
    ensures
        outcome_of(phase, seq![EventView::Failed(reported_fault(error))]) == Some(
            Err::<Seq<char>, AutomationError>(error_of(operation, reported_fault(error))),
        ),
        reply_for(Err(error_of(operation, reported_fault(error)))) == failure_reply(),
{
    let events = seq![EventView::Failed(reported_fault(error))];
    assert(events[0] == EventView::Failed(reported_fault(error)));
}

/// A step that does not end the scrape leaves it in a phase that waits for
/// a command.
proof fn lemma_unfinished_step_waits(phase: Phase, event: EventView)
    requires
        !(next(phase, event).1 is Finish),
    ensures
        next(phase, event).0.pending() is Some,
{
}

/// A fault of the transport ends a scrape that is under way, in whatever
/// phase it meets it, with `ConnectionFailed`.
proof fn lemma_transport_fault_ends_scrape(phase: Phase, before: Seq<EventView>, fault: Fault)
    requires
        phase.pending() is Some,
        outcome_of(phase, before) is None,
        fault.is_transport(),
    ensures
        outcome_of(phase, before.push(EventView::Failed(fault))) == Some(
            Err::<Seq<char>, AutomationError>(AutomationError::ConnectionFailed),
        ),
    decreases before.len(),
{
    let events = before.push(EventView::Failed(fault));
    if before.len() == 0 {
        assert(events[0] == EventView::Failed(fault));
    } else {
        let then = next(phase, before[0]).0;
        assert(events[0] == before[0]);
        assert(events.drop_first() =~= before.drop_first().push(EventView::Failed(fault)));
        lemma_unfinished_step_waits(phase, before[0]);
        lemma_transport_fault_ends_scrape(then, before.drop_first(), fault);
    }
}

/// Where the session cannot be reached, at whatever point of a request that
/// is under way, the scrape ends at once with `ConnectionFailed`, and the
/// request is answered with the reply to a failure.
pub proof fn lemma_unreachable_session_is_answered(before: Seq<EventView>, fault: Fault)
    requires
        reply_to(before) is None,
        fault.is_transport(),
    ensures
        outcome_of(Phase::Navigating, before.push(EventView::Failed(fault))) == Some(
            Err::<Seq<char>, AutomationError>(AutomationError::ConnectionFailed),
        ),
        reply_to(before.push(EventView::Failed(fault))) == Some(failure_reply()),
{
    lemma_transport_fault_ends_scrape(Phase::Navigating, before, fault);
}

/// No scrape takes more than four events to end.
pub proof fn lemma_scrape_ends(events: Seq<EventView>)
    requires
        events.len() >= 4,
    ensures
        outcome_of(Phase::Navigating, events) is Some,
{
    reveal_with_fuel(outcome_of, 5);
}

/// The ticker can be read back from the URL of its quote page: it is what
/// follows the prefix, character for character.
pub proof fn lemma_quote_url_keeps_ticker(ticker: Seq<char>)
    ensures
        quote_url_of(ticker).len() == QUOTE_URL_PREFIX@.len() + ticker.len(),
        quote_url_of(ticker).subrange(0, QUOTE_URL_PREFIX@.len() as int) == QUOTE_URL_PREFIX@,
        quote_url_of(ticker).subrange(
            QUOTE_URL_PREFIX@.len() as int,
            quote_url_of(ticker).len() as int,
        ) == ticker,
{
    let url = quote_url_of(ticker);
    let cut = QUOTE_URL_PREFIX@.len() as int;
    assert(url.subrange(0, cut) =~= QUOTE_URL_PREFIX@);
    assert(url.subrange(cut, url.len() as int) =~= ticker);
}

/// Two tickers share the URL of their quote page only where they are the
/// same ticker.
pub proof fn lemma_quote_url_tells_tickers_apart(first: Seq<char>, second: Seq<char>)
    requires
        quote_url_of(first) == quote_url_of(second),
    ensures
        first == second,
{
    lemma_quote_url_keeps_ticker(first);
    lemma_quote_url_keeps_ticker(second);
}

} // verus!
