//! Rules of a small service that reads the live price of a stock from a
//! rendered quote page and hands it back over HTTP.
//!
//! The crate holds what the service decides: which browser profile the
//! automation session is opened with, which page a ticker maps to, in what
//! order the page is queried, how a failure is told apart, and which reply a
//! request gets. Talking to the driver and to the network is left to the
//! program around it, which performs one [`scrape::Action`] at a time and
//! reports back an [`scrape::Event`].

pub mod error;
pub mod profile;
pub mod reply;
pub mod scrape;
pub mod theorems;
