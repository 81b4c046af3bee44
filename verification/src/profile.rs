//! The browser profile that the automation session is opened with.

use crate::error::AutomationError;
use thirtyfour::error::WebDriverError;
use thirtyfour::{DesiredCapabilities, FirefoxCapabilities};
use vstd::prelude::*;

verus! {

/// Where the driver listens for the session to be opened.
pub const DRIVER_ENDPOINT: &'static str = "http://127.0.0.1:4444";

/// Argument that runs the browser without a window.
pub const HEADLESS_ARG: &'static str = "-headless";

/// Argument that switches the browser's sandbox off.
pub const NO_SANDBOX_ARG: &'static str = "--no-sandbox";

/// Argument that keeps the browser from using shared memory.
pub const DISABLE_DEV_SHM_ARG: &'static str = "--disable-dev-shm-usage";

/// The Firefox capabilities of the `thirtyfour` crate.
#[verifier::external_type_specification]
#[verifier::external_body]
pub struct ExFirefoxCapabilities(thirtyfour::FirefoxCapabilities);

/// The command-line arguments that a profile holds, in the order in which
/// its method `args` lists them.
pub uninterp spec fn firefox_args(caps: FirefoxCapabilities) -> Seq<Seq<char>>;

/// A list of arguments after `arg` was added: an argument that the list
/// already holds is not added again, a new one goes to the end.
pub open spec fn with_arg(args: Seq<Seq<char>>, arg: Seq<char>) -> Seq<Seq<char>> {
    if args.contains(arg) {
        args
    } else {
        args.push(arg)
    }
}

/// The arguments of the profile that a session is opened with.
pub open spec fn session_args() -> Seq<Seq<char>> {
    seq![HEADLESS_ARG@, NO_SANDBOX_ARG@, DISABLE_DEV_SHM_ARG@]
}

/// Calls `DesiredCapabilities::firefox`: a fresh profile, which names the
/// browser and holds no argument.
#[verifier::external_body]
fn new_firefox() -> (caps: FirefoxCapabilities)
    ensures
        firefox_args(caps) == Seq::<Seq<char>>::empty(),
{
    DesiredCapabilities::firefox()
}

/// Calls `FirefoxCapabilities::set_headless`, which adds the headless
/// argument as `add_arg` would, and succeeds as `add_arg` does.
#[verifier::external_body]
fn set_headless(caps: &mut FirefoxCapabilities) -> (done: Result<(), WebDriverError>)
    ensures
        done is Ok,
        firefox_args(*final(caps)) == with_arg(firefox_args(*old(caps)), HEADLESS_ARG@),
{
    caps.set_headless()
}

/// Calls `FirefoxCapabilities::add_arg`: the profile then holds the
/// argument, once, behind those it held before.
///
/// The call succeeds on every profile and argument. It can fail only where
/// the list of arguments cannot be turned into a JSON value or stored under
/// its key, and `serde_json` turns every list of strings into an array and
/// takes every string for a key.
#[verifier::external_body]
fn add_arg(caps: &mut FirefoxCapabilities, arg: &str) -> (done: Result<(), WebDriverError>)
    ensures
        done is Ok,
        firefox_args(*final(caps)) == with_arg(firefox_args(*old(caps)), arg@),
{
    caps.add_arg(arg)
}

/// The three arguments of the session profile differ from one another.
proof fn lemma_session_args_differ()
    ensures
        HEADLESS_ARG@ != NO_SANDBOX_ARG@,
        HEADLESS_ARG@ != DISABLE_DEV_SHM_ARG@,
        NO_SANDBOX_ARG@ != DISABLE_DEV_SHM_ARG@,
{
    reveal_strlit("-headless");
    reveal_strlit("--no-sandbox");
    reveal_strlit("--disable-dev-shm-usage");
    assert(HEADLESS_ARG@.len() == 9);
    assert(NO_SANDBOX_ARG@.len() == 12);
    assert(DISABLE_DEV_SHM_ARG@.len() == 23);
}

/// Builds the profile of the session: a headless Firefox with its sandbox
/// off and without shared memory.
///
/// The profile is always built, and holds exactly the three arguments of
/// the session, in their order. The result is a `Result` because the driver
/// client's setters return one; none of them fails on these arguments.
pub fn session_capabilities() -> (built: Result<FirefoxCapabilities, AutomationError>)
    ensures
        built matches Ok(caps) && firefox_args(caps) == session_args(),
{
    let mut caps = new_firefox();
    proof {
        lemma_session_args_differ();
    }
    match set_headless(&mut caps) {
        Ok(()) => {},
        Err(_) => {
            return Err(AutomationError::ProtocolError);
        },
    }
    assert(firefox_args(caps) =~= seq![HEADLESS_ARG@]);
    match add_arg(&mut caps, NO_SANDBOX_ARG) {
        Ok(()) => {},
        Err(_) => {
            return Err(AutomationError::ProtocolError);
        },
    }
    assert(firefox_args(caps) =~= seq![HEADLESS_ARG@, NO_SANDBOX_ARG@]);
    match add_arg(&mut caps, DISABLE_DEV_SHM_ARG) {
        Ok(()) => {},
        Err(_) => {
            return Err(AutomationError::ProtocolError);
        },
    }
    assert(firefox_args(caps) =~= session_args());
    Ok(caps)
}

} // verus!
