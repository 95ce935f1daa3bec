//! Bringing the service up: the addresses that it connects to, and the
//! patience with which it waits for the directory services.

use crate::effects::{Directory, Effect, EffectView, Reply, ReplyView, Step, StepView};
use crate::world::{drive, World};
use vstd::prelude::*;
use vstd::string::*;

verus! {

/// The filter of the log: everything from `info` up, the broker's client
/// from `warn` up.
pub const LOG_FILTER: &'static str = "info,lapin=warn";

/// How often the connection to a directory service is tried.
pub const CONNECT_ATTEMPTS: u32 = 5;

/// The seconds to wait after an attempt that failed.
pub const CONNECT_GAP_SECONDS: u64 = 5;

/// The address of the broker for a user, a password and a host.
pub open spec fn amqp_uri_of(user: Seq<char>, password: Seq<char>, host: Seq<char>) -> Seq<char> {
    "amqp://"@ + user + ":"@ + password + "@"@ + host
}

/// The address of a directory service on a host.
pub open spec fn http_uri_of(host: Seq<char>) -> Seq<char> {
    "http://"@ + host
}

/// Writes the address of the broker.
pub fn amqp_uri(user: &str, password: &str, host: &str) -> (uri: String)
    ensures
        uri@ == amqp_uri_of(user@, password@, host@),
{
    let mut uri = String::from_str("amqp://");
    uri.append(user);
    uri.append(":");
    uri.append(password);
    uri.append("@");
    uri.append(host);
    uri
}

/// Writes the address of a directory service.
pub fn http_uri(host: &str) -> (uri: String)
    ensures
        uri@ == http_uri_of(host@),
{
    let mut uri = String::from_str("http://");
    uri.append(host);
    uri
}

/// Why the service could not be brought up.
#[derive(Clone, Copy, Debug, PartialEq, Eq, Structural)]
pub enum BootError {
    /// Every attempt to connect to the directory service failed.
    Unreachable(Directory),
}

/// What connecting to a directory service ends with.
pub type ConnectAnswer = Result<(), BootError>;

/// A connection in the making, with the number of attempts that are left.
#[derive(Clone, Copy, Debug, PartialEq, Eq, Structural)]
pub enum ConnectFlow {
    /// An attempt is under way; `left` counts it.
    Connecting { directory: Directory, left: u32 },
    /// Waiting after an attempt that failed.
    Waiting { directory: Directory, left: u32 },
}

impl View for ConnectFlow {
    type V = ConnectFlow;

    open spec fn view(&self) -> ConnectFlow {
        *self
    }
}

/// The first step of connecting: the first attempt.
pub open spec fn connect_start(directory: Directory) -> StepView<ConnectFlow, ConnectAnswer> {
    StepView::Perform(
        ConnectFlow::Connecting { directory, left: CONNECT_ATTEMPTS },
        EffectView::Connect { directory },
    )
}

/// The step of connecting that follows a reply: an attempt that succeeded
/// ends it, one that failed is followed by a wait, and after the wait comes
/// the next attempt, or the end if none is left.
pub open spec fn connect_resume(flow: ConnectFlow, reply: ReplyView) -> StepView<
    ConnectFlow,
    ConnectAnswer,
> {
    match flow {
        ConnectFlow::Connecting { directory, left } => if reply is Done {
            StepView::Finish(Ok(()))
        } else {
            StepView::Perform(
                ConnectFlow::Waiting { directory, left: if left > 0 {
                    (left - 1) as u32
                } else {
                    0
                } },
                EffectView::Sleep { seconds: CONNECT_GAP_SECONDS },
            )
        },
        ConnectFlow::Waiting { directory, left } => if left > 0 {
            StepView::Perform(
                ConnectFlow::Connecting { directory, left },
                EffectView::Connect { directory },
            )
        } else {
            StepView::Finish(Err(BootError::Unreachable(directory)))
        },
    }
}

/// Begins to connect to a directory service.
pub fn connect(directory: Directory) -> (step: Step<ConnectFlow, ConnectAnswer>)
    ensures
        step.view_as(|a: ConnectAnswer| a) == connect_start(directory),
{
    Step::Perform(
        ConnectFlow::Connecting { directory, left: CONNECT_ATTEMPTS },
        Effect::Connect { directory },
    )
}

impl ConnectFlow {
    /// Goes on with connecting after a reply.
    pub fn resume(self, reply: Reply) -> (step: Step<ConnectFlow, ConnectAnswer>)
        ensures
            step.view_as(|a: ConnectAnswer| a) == connect_resume(self@, reply@),
    {
        match self {
            ConnectFlow::Connecting { directory, left } => match reply {
                Reply::Done => Step::Finish(Ok(())),
                _ => {
                    let left: u32 = if left > 0 {
                        left - 1
                    } else {
                        0
                    };
                    Step::Perform(
                        ConnectFlow::Waiting { directory, left },
                        Effect::Sleep { seconds: CONNECT_GAP_SECONDS },
                    )
                },
            },
            ConnectFlow::Waiting { directory, left } => if left > 0 {
                Step::Perform(
                    ConnectFlow::Connecting { directory, left },
                    Effect::Connect { directory },
                )
            } else {
                Step::Finish(Err(BootError::Unreachable(directory)))
            },
        }
    }
}

/// Connecting run to its end against the model of the world.
pub open spec fn connect_run(world: World, directory: Directory) -> (World, Option<ConnectAnswer>) {
    drive(
        world,
        connect_start(directory),
        |f: ConnectFlow, r: ReplyView| connect_resume(f, r),
        2 * CONNECT_ATTEMPTS as nat,
    )
}

/// The number of attempts on a directory service that fail in a world.
pub open spec fn outage(world: World, directory: Directory) -> nat {
    if world.outages.contains_key(directory) {
        world.outages[directory]
    } else {
        0
    }
}

/// Connecting succeeds exactly when fewer than five attempts fail.
///
/// It tries at most five times and waits five seconds after every attempt
/// that failed. Where the directory comes up in time the connection is
/// opened; where it does not, connecting ends with the directory unreachable
/// after five waits.
pub proof fn law_connect_is_patient(world: World, directory: Directory)
    ensures
        ({
            let failures = outage(world, directory);
            let (after, answer) = connect_run(world, directory);
            if failures < CONNECT_ATTEMPTS {
                &&& answer == Some(Ok::<(), BootError>(()))
                &&& after.connected == world.connected.push(directory)
                &&& after.waited == world.waited + failures * CONNECT_GAP_SECONDS
                &&& outage(after, directory) == 0
            } else {
                &&& answer == Some(Err::<(), BootError>(BootError::Unreachable(directory)))
                &&& after.connected == world.connected
                &&& after.waited == world.waited + CONNECT_ATTEMPTS * CONNECT_GAP_SECONDS
                &&& outage(after, directory) == failures - CONNECT_ATTEMPTS
            }
        }),
{
    reveal_with_fuel(drive, 11);
}

} // verus!
