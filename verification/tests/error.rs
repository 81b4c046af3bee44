use price_scraper::error::{classify, AutomationError, Fault, Operation};
use price_scraper::scrape::{advance, Action, Event, Phase};
use thirtyfour::error::{no_such_element, WebDriverError, WebDriverErrorInfo};

#[test]
fn transport_faults_are_connection_failed_whatever_was_asked() {
    for operation in [Operation::Navigate, Operation::Lookup, Operation::ReadText] {
        for fault in [Fault::Http, Fault::RequestFailed, Fault::InvalidSession] {
            assert_eq!(classify(operation, fault), AutomationError::ConnectionFailed);
        }
    }
}

#[test]
fn faults_while_a_page_loads_are_navigation_failed() {
    for fault in [Fault::NoSuchElement, Fault::StaleElement, Fault::Other] {
        assert_eq!(classify(Operation::Navigate, fault), AutomationError::NavigationFailed);
    }
}

#[test]
fn missing_elements_are_element_not_found() {
    for operation in [Operation::Lookup, Operation::ReadText] {
        for fault in [Fault::NoSuchElement, Fault::StaleElement] {
            assert_eq!(classify(operation, fault), AutomationError::ElementNotFound);
        }
    }
}

#[test]
fn other_faults_of_lookup_and_read_are_protocol_errors() {
    assert_eq!(classify(Operation::Lookup, Fault::Other), AutomationError::ProtocolError);
    assert_eq!(classify(Operation::ReadText, Fault::Other), AutomationError::ProtocolError);
}

#[test]
fn driver_errors_are_reported_as_failures() {
    let info = || WebDriverErrorInfo::new("gone".to_string());
    assert_eq!(
        Event::from_driver_error(&WebDriverError::HttpError("refused".to_string())),
        Event::Failed(Fault::Http)
    );
    assert_eq!(
        Event::from_driver_error(&WebDriverError::RequestFailed("bad body".to_string())),
        Event::Failed(Fault::RequestFailed)
    );
    assert_eq!(
        Event::from_driver_error(&WebDriverError::InvalidSessionId(info())),
        Event::Failed(Fault::InvalidSession)
    );
    assert_eq!(
        Event::from_driver_error(&WebDriverError::NoSuchElement(info())),
        Event::Failed(Fault::NoSuchElement)
    );
    assert_eq!(
        Event::from_driver_error(&no_such_element("no livePrice".to_string())),
        Event::Failed(Fault::NoSuchElement)
    );
    assert_eq!(
        Event::from_driver_error(&WebDriverError::StaleElementReference(info())),
        Event::Failed(Fault::StaleElement)
    );
}

#[test]
fn driver_errors_without_a_fault_of_their_own_are_other() {
    let info = || WebDriverErrorInfo::new("x".to_string());
    let errors = vec![
        WebDriverError::Json("unexpected".to_string()),
        WebDriverError::UnknownResponse(502, "<html>".to_string()),
        WebDriverError::WebDriverTimeout(info()),
        WebDriverError::UnknownError(info()),
        WebDriverError::NoSuchWindow(info()),
        WebDriverError::parse(404, "{\"state\":\"no such frame\",\"value\":{\"message\":\"m\"}}".to_string()),
    ];
    for error in &errors {
        assert_eq!(Event::from_driver_error(error), Event::Failed(Fault::Other));
    }
}

#[test]
fn driver_error_parsed_from_a_response_is_told_apart() {
    let body = "{\"state\":\"no such element\",\"value\":{\"message\":\"Unable to locate element\"}}";
    let error = WebDriverError::parse(404, body.to_string());
    assert_eq!(Event::from_driver_error(&error), Event::Failed(Fault::NoSuchElement));
}

#[test]
fn one_driver_error_reports_one_fault() {
    let errors = vec![
        WebDriverError::HttpError("refused".to_string()),
        no_such_element("no livePrice".to_string()),
        WebDriverError::Json("unexpected".to_string()),
    ];
    for error in &errors {
        assert_eq!(Event::from_driver_error(error), Event::from_driver_error(error));
    }
    assert_ne!(Event::from_driver_error(&errors[0]), Event::from_driver_error(&errors[1]));
    assert_ne!(Event::from_driver_error(&errors[1]), Event::from_driver_error(&errors[2]));
}

#[test]
fn driver_error_decides_how_the_scrape_ends() {
    let missing = no_such_element("no livePrice".to_string());
    let refused = WebDriverError::HttpError("refused".to_string());
    let garbled = WebDriverError::Json("unexpected".to_string());
    let ends = |phase: Phase, error: &WebDriverError| -> AutomationError {
        match advance(phase, Event::from_driver_error(error)) {
            (Phase::Finished, Action::Finish { outcome: Err(kind) }) => kind,
            other => panic!("the scrape did not fail: {:?}", other),
        }
    };
    assert_eq!(ends(Phase::FindingContainer, &missing), AutomationError::ElementNotFound);
    assert_eq!(ends(Phase::FindingPrice, &missing), AutomationError::ElementNotFound);
    assert_eq!(ends(Phase::Navigating, &missing), AutomationError::NavigationFailed);
    assert_eq!(ends(Phase::Navigating, &refused), AutomationError::ConnectionFailed);
    assert_eq!(ends(Phase::ReadingText, &refused), AutomationError::ConnectionFailed);
    assert_eq!(ends(Phase::Navigating, &garbled), AutomationError::NavigationFailed);
    assert_eq!(ends(Phase::ReadingText, &garbled), AutomationError::ProtocolError);
}
