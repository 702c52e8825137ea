//! What the transport layer asks of the engine: turning a command request
//! into the steps to carry out, and following the position on behalf of a
//! connected client.

use vstd::prelude::*;
use crate::broadcast::Subscription;
use crate::error::RemoteError;
use crate::gpio::Input;
use crate::remote::{Command, RemoteControl};
use crate::text::same_text;

verus! {

/// The steps that a command request comes to, in the order in which they
/// are carried out.
#[derive(Clone, Copy, Debug, PartialEq, Eq, Structural)]
pub struct CommandPlan {
    /// First, the position to seek, if the request names one.
    pub seek: Option<Input>,
    /// Then, the button to press once: `Select` stands for one cycle of the
    /// device, any other button for a move that leaves the position alone.
    pub press: Option<Command>,
}

/// The plan for the command `word` with the wanted position `led`.
///
/// An unknown word is turned away before anything is carried out. A request
/// that names a position seeks it. `select` without a position is one cycle;
/// with a position the seek is all there is to do. Any other command is
/// pressed once, after the seek if there is one.
pub open spec fn planned(word: Seq<char>, led: Option<Input>) -> Result<CommandPlan, RemoteError> {
    match Command::named(word) {
        None => Err(RemoteError::InvalidCommand),
        Some(command) => Ok(
            CommandPlan {
                seek: led,
                press: if command == Command::Select && led.is_some() {
                    None
                } else {
                    Some(command)
                },
            },
        ),
    }
}

/// Turns a command request into its plan.
pub fn process_command(command: &str, led: Option<Input>) -> (r: Result<CommandPlan, RemoteError>)
    ensures
        r == planned(command@, led),
{
    match Command::from_str(command) {
        None => Err(RemoteError::InvalidCommand),
        Some(Command::Select) => {
            if led.is_some() {
                Ok(CommandPlan { seek: led, press: None })
            } else {
                Ok(CommandPlan { seek: led, press: Some(Command::Select) })
            }
        },
        Some(other) => Ok(CommandPlan { seek: led, press: Some(other) }),
    }
}

/// What a text message from a client is.
#[derive(Clone, Copy, Debug, PartialEq, Eq, Structural)]
pub enum Incoming {
    /// A liveness probe, to be answered with `PONG`.
    Ping,
    /// Anything else: a command request for the transport layer to decode.
    Request,
}

/// The text of a liveness probe.
pub open spec fn ping_text() -> Seq<char> {
    seq!['p', 'i', 'n', 'g']
}

/// The text that answers a liveness probe.
pub open spec fn pong_text() -> Seq<char> {
    seq!['p', 'o', 'n', 'g']
}

/// Tells a liveness probe from a command request.
pub fn classify(text: &str) -> (r: Incoming)
    ensures
        r == if text@ == ping_text() {
            Incoming::Ping
        } else {
            Incoming::Request
        },
{
    proof {
        reveal_strlit("ping");
        assert("ping"@ =~= ping_text());
    }
    if same_text(text, "ping") {
        Incoming::Ping
    } else {
        Incoming::Request
    }
}

/// What is sent to a client.
#[derive(Clone, Copy, Debug, PartialEq, Eq, Structural)]
pub enum Outgoing {
    /// The position, by its name.
    Position(Input),
    /// The answer to a liveness probe.
    Pong,
}

impl Outgoing {
    /// The text of a message.
    pub open spec fn text(self) -> Seq<char> {
        match self {
            Outgoing::Position(p) => p.label(),
            Outgoing::Pong => pong_text(),
        }
    }

    /// The text that goes over the wire.
    pub fn as_str(&self) -> (s: &'static str)
        ensures
            s@ == self.text(),
    {
        match self {
            Outgoing::Position(p) => p.name(),
            Outgoing::Pong => {
                proof {
                    reveal_strlit("pong");
                    assert("pong"@ =~= pong_text());
                }
                "pong"
            },
        }
    }
}

/// The answer that a text message calls for at once, if it calls for one.
pub fn reply_to(text: &str) -> (r: Option<Outgoing>)
    ensures
        r == if text@ == ping_text() {
            Some(Outgoing::Pong)
        } else {
            None::<Outgoing>
        },
{
    match classify(text) {
        Incoming::Ping => Some(Outgoing::Pong),
        Incoming::Request => None,
    }
}

/// One connected client that follows the position.
#[derive(Clone, Copy, Debug, PartialEq, Eq, Structural)]
pub struct Session {
    handle: Subscription,
}

impl Session {
    /// The client's handle on the position.
    pub closed spec fn handle(self) -> Subscription {
        self.handle
    }

    /// Opens a session. The client is sent the position as it is now, and
    /// from then on hears of every change made after this moment.
    pub fn open(remote: &RemoteControl) -> (r: (Session, Outgoing))
        requires
            remote.wf(),
        ensures
            r.0.handle() == remote.feed().subscribed(),
            r.1 == Outgoing::Position(remote.selection()),
    {
        let handle = remote.subscribe();
        (Session { handle }, Outgoing::Position(remote.current()))
    }

    /// The next message about the position, if it was published since the
    /// client last heard of it: the latest position and no older one. `None`
    /// means that the client is up to date and the caller has to wait for
    /// the next publication.
    pub fn next_update(&mut self, remote: &RemoteControl) -> (r: Option<Outgoing>)
        requires
            remote.wf(),
        ensures
            final(self).handle() == old(self).handle().waited(remote.feed()).1,
            r == match old(self).handle().waited(remote.feed()).0 {
                Some(p) => Some(Outgoing::Position(p)),
                None => None::<Outgoing>,
            },
            r.is_some() ==> r == Some(Outgoing::Position(remote.selection())),
    {
        match self.handle.wait_for_change(remote.broadcaster()) {
            Some(p) => Some(Outgoing::Position(p)),
            None => None,
        }
    }
}

} // verus!
