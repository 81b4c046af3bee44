//! Failures of the automation session, and how they are told apart.

use thirtyfour::error::{WebDriverError, WebDriverErrorInner};
use vstd::prelude::*;

verus! {

/// The error type of the `thirtyfour` crate.
#[verifier::external_type_specification]
#[verifier::external_body]
pub struct ExWebDriverError(thirtyfour::error::WebDriverError);

/// What the driver client reported for a command that did not succeed.
///
/// Only the reports that change how a failure is told apart have a variant of
/// their own; every other report is `Other`.
#[derive(Clone, Copy, Debug, PartialEq, Eq, Structural)]
pub enum Fault {
    /// The HTTP exchange with the driver failed.
    Http,
    /// The request could not be sent to the driver.
    RequestFailed,
    /// The driver no longer knows the session.
    InvalidSession,
    /// No element matched a lookup.
    NoSuchElement,
    /// The element of an earlier lookup has left the page.
    StaleElement,
    /// Any other report.
    Other,
}

/// The kind of command that was handed to the driver.
#[derive(Clone, Copy, Debug, PartialEq, Eq, Structural)]
pub enum Operation {
    /// Loading a page.
    Navigate,
    /// Looking an element up, in the page or below another element.
    Lookup,
    /// Reading the text of an element.
    ReadText,
}

/// Why a request to the automation session failed.
#[derive(Clone, Copy, Debug, PartialEq, Eq, Structural)]
pub enum AutomationError {
    /// The driver could not be reached, or the session is gone.
    ConnectionFailed,
    /// The page did not load.
    NavigationFailed,
    /// The page holds no element where one was expected.
    ElementNotFound,
    /// The driver answered in a way that the exchange does not allow for.
    ProtocolError,
}

impl Fault {
    /// Whether the fault says that the driver or its session is out of reach.
    pub open spec fn is_transport(self) -> bool {
        self == Fault::Http || self == Fault::RequestFailed || self == Fault::InvalidSession
    }

    /// Whether the fault says that an element is not in the page.
    pub open spec fn is_missing_element(self) -> bool {
        self == Fault::NoSuchElement || self == Fault::StaleElement
    }
}

/// The error that a fault stands for, given the operation that met it.
///
/// A fault of the transport is a failed connection whatever was asked. Any
/// other fault while a page loads is a failed navigation. A lookup or a read
/// that names a missing element found no element. Everything else breaks the
/// protocol.
pub open spec fn error_of(operation: Operation, fault: Fault) -> AutomationError {
    if fault.is_transport() {
        AutomationError::ConnectionFailed
    } else {
        match operation {
            Operation::Navigate => AutomationError::NavigationFailed,
            Operation::Lookup | Operation::ReadText => if fault.is_missing_element() {
                AutomationError::ElementNotFound
            } else {
                AutomationError::ProtocolError
            },
        }
    }
}

/// Tells a fault apart by the operation that met it.
pub fn classify(operation: Operation, fault: Fault) -> (error: AutomationError)
    ensures
        error == error_of(operation, fault),
{
    match fault {
        Fault::Http | Fault::RequestFailed | Fault::InvalidSession => {
            AutomationError::ConnectionFailed
        },
        Fault::NoSuchElement | Fault::StaleElement => match operation {
            Operation::Navigate => AutomationError::NavigationFailed,
            Operation::Lookup | Operation::ReadText => AutomationError::ElementNotFound,
        },
        Fault::Other => match operation {
            Operation::Navigate => AutomationError::NavigationFailed,
            Operation::Lookup | Operation::ReadText => AutomationError::ProtocolError,
        },
    }
}

/// The fault that a driver error reports: the variant that
/// `WebDriverError::as_inner` shows for it, or `Other` for a variant that
/// has no fault of its own. It depends on the error alone.
pub uninterp spec fn reported_fault(error: WebDriverError) -> Fault;

/// Reads the variant of a `thirtyfour` error through
/// `WebDriverError::as_inner`.
///
/// The error is opaque here, so the result is stated by its name: one error
/// reports one fault, whenever and however often it is asked.
#[verifier::external_body]
pub(crate) fn fault_of(error: &WebDriverError) -> (fault: Fault)
    ensures
        fault == reported_fault(*error),
{
    match error.as_inner() {
        WebDriverErrorInner::HttpError(_) => Fault::Http,
        WebDriverErrorInner::RequestFailed(_) => Fault::RequestFailed,
        WebDriverErrorInner::InvalidSessionId(_) => Fault::InvalidSession,
        WebDriverErrorInner::NoSuchElement(_) => Fault::NoSuchElement,
        WebDriverErrorInner::StaleElementReference(_) => Fault::StaleElement,
        _ => Fault::Other,
    }
}

} // verus!
