use vstd::prelude::*;
use crate::error::IoError;
use crate::nc::{copy_result, Endpoint};
use crate::port::{decimal_text, push_port};
use crate::stream::write_count;

verus! {

/// One of the two flows of a relay.
#[derive(Debug, Clone, Copy, PartialEq, Eq, Structural)]
pub enum Direction {
    /// From the remote end to the local output.
    RemoteToLocal,
    /// From the local input to the remote end.
    LocalToRemote,
}

/// Why a relay did not go well.
#[derive(Debug, PartialEq, Eq)]
pub enum RelayError {
    /// The arguments do not name a host and a port.
    Usage,
    /// The connection to the remote end could not be opened.
    Connection { host: String, port: u16, cause: IoError },
    /// A read or a write failed while bytes were copied in the given direction.
    Transfer { direction: Direction, cause: IoError },
    /// The connection could not be shut down.
    Shutdown { cause: IoError },
}

/// The result of one relay: that of the copy that ended first.
pub type RelayOutcome = Result<(), RelayError>;

impl RelayError {
    /// The message that tells the user of this failure.
    pub open spec fn message(self) -> Seq<char> {
        match self {
            RelayError::Usage => "Usage: nc <destination> <port>"@,
            RelayError::Connection { host, port, cause } => "Failed to connect to '"@ + host@
                + ":"@ + decimal_text(port as nat) + "': "@ + cause.message@,
            RelayError::Transfer { direction: Direction::RemoteToLocal, cause } =>
                "Failed to copy from the remote end to standard output: "@ + cause.message@,
            RelayError::Transfer { direction: Direction::LocalToRemote, cause } =>
                "Failed to copy from standard input to the remote end: "@ + cause.message@,
            RelayError::Shutdown { cause } => "Failed to shut down the connection: "@
                + cause.message@,
        }
    }

    /// This failure as it is shown to the user: what failed, on which host and port
    /// where a connection did, and the cause.
    pub fn describe(&self) -> (e: IoError)
        ensures
            e.message@ == self.message(),
    {
        match self {
            RelayError::Usage => IoError::new("Usage: nc <destination> <port>"),
            RelayError::Connection { host, port, cause } => {
                let mut text = String::from_str("Failed to connect to '");
                text.append(host.as_str());
                text.append(":");
                push_port(&mut text, *port);
                text.append("': ");
                text.append(cause.message.as_str());
                IoError { message: text }
            },
            RelayError::Transfer { direction, cause } => {
                let mut text = match direction {
                    Direction::RemoteToLocal => String::from_str(
                        "Failed to copy from the remote end to standard output: ",
                    ),
                    Direction::LocalToRemote => String::from_str(
                        "Failed to copy from standard input to the remote end: ",
                    ),
                };
                text.append(cause.message.as_str());
                IoError { message: text }
            },
            RelayError::Shutdown { cause } => {
                let mut text = String::from_str("Failed to shut down the connection: ");
                text.append(cause.message.as_str());
                IoError { message: text }
            },
        }
    }
}

/// The message of a failure to connect names the host and, after it, the port.
pub proof fn lemma_connection_failure_names_endpoint(host: String, port: u16, cause: IoError)
    ensures
        ({
            let message = RelayError::Connection { host, port, cause }.message();
            let at = "Failed to connect to '"@.len() as int;
            let then = at + host@.len() + ":"@.len();
            &&& message.subrange(at, at + host@.len()) == host@
            &&& message.subrange(then, then + decimal_text(port as nat).len()) == decimal_text(
                port as nat,
            )
        }),
{
    let message = RelayError::Connection { host, port, cause }.message();
    let at = "Failed to connect to '"@.len() as int;
    let then = at + host@.len() + ":"@.len();
    assert(message.subrange(then, then + decimal_text(port as nat).len()) =~= decimal_text(
        port as nat,
    ));
}

/// What a relay hands back when it is over.
#[derive(Debug, PartialEq, Eq)]
pub struct Report {
    /// The result of the copy that ended first, or the failure to connect.
    pub outcome: RelayOutcome,
    /// The failure to shut the connection down, if it failed.
    pub shutdown: Option<IoError>,
}

impl Report {
    /// The result of the relay: the outcome, whatever came of the shutdown. A shutdown
    /// that failed does not turn a success into a failure, nor replace a failure.
    pub fn into_result(self) -> (res: RelayOutcome)
        ensures
            res == self.outcome,
    {
        self.outcome
    }

    /// The failure to shut the connection down, for the caller to tell the user of
    /// beside the result; `None` where the shutdown went well.
    pub fn shutdown_failure(&self) -> (failure: Option<RelayError>)
        ensures
            failure == match self.shutdown {
                Some(cause) => Some(RelayError::Shutdown { cause }),
                None => None,
            },
    {
        match &self.shutdown {
            Some(cause) => Some(RelayError::Shutdown { cause: cause.clone() }),
            None => None,
        }
    }
}

/// What has happened outside the relay.
#[derive(Debug, PartialEq, Eq)]
pub enum Event {
    /// The connection is open, and two handles to it are at hand.
    Connected,
    /// The connection could not be opened.
    ConnectFailed(IoError),
    /// The copy in the given direction has ended with the given result.
    CopyFinished(Direction, Result<(), IoError>),
    /// Both halves of the connection were shut down, or the shutdown failed.
    ShutdownDone(Result<(), IoError>),
}

/// What the caller of the relay has to do next.
#[derive(Debug, PartialEq, Eq)]
pub enum Action {
    /// Open one connection to the host and port, then tell whether that went well.
    Connect { host: String, port: u16 },
    /// Start the two copies, one in each direction, wait for the first of them to end,
    /// and tell which it was and how it ended.
    Copy,
    /// Shut down both halves of the connection, then tell whether that went well.
    Shutdown,
    /// Hand back the report: the relay is over.
    Finish(Report),
    /// Nothing: the event was of no interest.
    Wait,
}

/// The relay between a local input and output and a remote end, as the one who decides:
/// it is told what happened and tells what to do next.
#[derive(Debug, PartialEq, Eq)]
pub enum Relay {
    /// The connection was asked for.
    Connecting(Endpoint),
    /// The two copies run, and none has ended.
    Copying,
    /// A copy has ended with this outcome, and the shutdown was asked for.
    Closing(RelayOutcome),
    /// The report was handed back.
    Finished,
}

/// The outcome of a relay whose first copy to end went in `direction` and ended with
/// `result`.
pub open spec fn outcome_of(direction: Direction, result: Result<(), IoError>) -> RelayOutcome {
    match result {
        Ok(_) => Ok(()),
        Err(cause) => Err(RelayError::Transfer { direction, cause }),
    }
}

impl Relay {
    /// The state after `event`, and what is to be done then.
    ///
    /// A failure to connect ends the relay at once. The first copy to end decides the
    /// outcome and is followed by the shutdown, however it ended. Whether the shutdown
    /// went well is reported beside the outcome. Every other event changes nothing.
    pub open spec fn next(self, event: Event) -> (Relay, Action) {
        match (self, event) {
            (Relay::Connecting(_), Event::Connected) => (Relay::Copying, Action::Copy),
            (Relay::Connecting(endpoint), Event::ConnectFailed(cause)) => (
                Relay::Finished,
                Action::Finish(
                    Report {
                        outcome: Err(
                            RelayError::Connection {
                                host: endpoint.host,
                                port: endpoint.port,
                                cause,
                            },
                        ),
                        shutdown: None,
                    },
                ),
            ),
            (Relay::Copying, Event::CopyFinished(direction, result)) => (
                Relay::Closing(outcome_of(direction, result)),
                Action::Shutdown,
            ),
            (Relay::Closing(outcome), Event::ShutdownDone(result)) => (
                Relay::Finished,
                Action::Finish(
                    Report {
                        outcome,
                        shutdown: match result {
                            Ok(_) => None,
                            Err(cause) => Some(cause),
                        },
                    },
                ),
            ),
            (state, _) => (state, Action::Wait),
        }
    }

    /// The actions that a relay in this state answers a sequence of events with, one for
    /// each event.
    pub open spec fn answers(self, events: Seq<Event>) -> Seq<Action>
        decreases events.len(),
    {
        if events.len() == 0 {
            Seq::empty()
        } else {
            seq![self.next(events[0]).1] + self.next(events[0]).0.answers(events.skip(1))
        }
    }

    /// How many events a relay in this state can still act on.
    pub open spec fn steps_left(self) -> nat {
        match self {
            Relay::Connecting(_) => 3,
            Relay::Copying => 2,
            Relay::Closing(_) => 1,
            Relay::Finished => 0,
        }
    }

    /// Begins a relay to `endpoint`: the first thing to do is to connect.
    pub fn start(endpoint: Endpoint) -> (begun: (Relay, Action))
        ensures
            begun.0 == Relay::Connecting(endpoint),
            begun.1 == (Action::Connect { host: endpoint.host, port: endpoint.port }),
    {
        let action = Action::Connect { host: endpoint.host.clone(), port: endpoint.port };
        (Relay::Connecting(endpoint), action)
    }

    /// Takes in what happened and tells what to do next.
    pub fn step(self, event: Event) -> (after: (Relay, Action))
        ensures
            after == self.next(event),
    {
        match self {
            Relay::Connecting(endpoint) => match event {
                Event::Connected => (Relay::Copying, Action::Copy),
                Event::ConnectFailed(cause) => (
                    Relay::Finished,
                    Action::Finish(
                        Report {
                            outcome: Err(
                                RelayError::Connection {
                                    host: endpoint.host,
                                    port: endpoint.port,
                                    cause,
                                },
                            ),
                            shutdown: None,
                        },
                    ),
                ),
                _ => (Relay::Connecting(endpoint), Action::Wait),
            },
            Relay::Copying => match event {
                Event::CopyFinished(direction, result) => {
                    let outcome = match result {
                        Ok(_) => Ok(()),
                        Err(cause) => Err(RelayError::Transfer { direction, cause }),
                    };
                    (Relay::Closing(outcome), Action::Shutdown)
                },
                _ => (Relay::Copying, Action::Wait),
            },
            Relay::Closing(outcome) => match event {
                Event::ShutdownDone(result) => {
                    let shutdown = match result {
                        Ok(_) => None,
                        Err(cause) => Some(cause),
                    };
                    (Relay::Finished, Action::Finish(Report { outcome, shutdown }))
                },
                _ => (Relay::Closing(outcome), Action::Wait),
            },
            Relay::Finished => (Relay::Finished, Action::Wait),
        }
    }
}

/// A relay answers each event with one action.
pub proof fn lemma_one_answer_each(relay: Relay, events: Seq<Event>)
    ensures
        relay.answers(events).len() == events.len(),
    decreases events.len(),
{
    if events.len() > 0 {
        lemma_one_answer_each(relay.next(events[0]).0, events.skip(1));
    }
}

/// An event that the relay acts on brings it nearer to its end, and an event that it does
/// not act on leaves it as it was: a relay acts on three events at most. It never asks
/// for a second connection, and it hands back its report as it ends and not before.
pub proof fn lemma_relay_advances(relay: Relay, event: Event)
    ensures
        relay.next(event).1 is Wait ==> relay.next(event).0 == relay,
        !(relay.next(event).1 is Wait) ==> relay.next(event).0.steps_left()
            < relay.steps_left(),
        !(relay.next(event).1 is Connect),
        relay.next(event).1 is Finish <==> !(relay.next(event).1 is Wait) && relay.next(
            event,
        ).0 is Finished,
{
}

/// A relay that is over answers nothing any more.
pub proof fn lemma_finished_relay_waits(events: Seq<Event>, i: int)
    requires
        0 <= i < events.len(),
    ensures
        Relay::Finished.answers(events)[i] is Wait,
    decreases events.len(),
{
    lemma_one_answer_each(Relay::Finished, events.skip(1));
    if i > 0 {
        lemma_finished_relay_waits(events.skip(1), i - 1);
    }
}

/// The place of an action in the course of a relay: to connect, to copy, to shut down,
/// to hand back the report; to wait has its place after them.
pub open spec fn place(action: Action) -> nat {
    match action {
        Action::Connect { .. } => 0,
        Action::Copy => 1,
        Action::Shutdown => 2,
        Action::Finish(_) => 3,
        Action::Wait => 4,
    }
}

proof fn lemma_answers_come_late(relay: Relay, events: Seq<Event>, i: int)
    requires
        0 <= i < events.len(),
    ensures
        place(relay.answers(events)[i]) + relay.steps_left() >= 4,
    decreases events.len(),
{
    let after = relay.next(events[0]).0;
    lemma_one_answer_each(after, events.skip(1));
    if i > 0 {
        lemma_answers_come_late(after, events.skip(1), i - 1);
    }
}

/// Whatever a relay is told, and in whatever state it begins, the actions that it asks
/// for come in their order and each once at most: the two copies are started once, the
/// connection is shut down once, and one report is handed back.
pub proof fn lemma_actions_in_order(relay: Relay, events: Seq<Event>, i: int, j: int)
    requires
        0 <= i < j < events.len(),
        !(relay.answers(events)[i] is Wait),
        !(relay.answers(events)[j] is Wait),
    ensures
        place(relay.answers(events)[i]) < place(relay.answers(events)[j]),
    decreases events.len(),
{
    let after = relay.next(events[0]).0;
    lemma_one_answer_each(after, events.skip(1));
    if i == 0 {
        lemma_answers_come_late(after, events.skip(1), j - 1);
    } else {
        lemma_actions_in_order(after, events.skip(1), i - 1, j - 1);
    }
}

/// A relay hands back one report at most, whatever it is told and in whatever state it
/// begins.
pub proof fn lemma_one_report(relay: Relay, events: Seq<Event>, i: int, j: int)
    requires
        0 <= i < j < events.len(),
    ensures
        !(relay.answers(events)[i] is Finish && relay.answers(events)[j] is Finish),
{
    if relay.answers(events)[i] is Finish && relay.answers(events)[j] is Finish {
        lemma_actions_in_order(relay, events, i, j);
    }
}

/// Where the connection cannot be opened, the relay ends at once with that failure, for
/// the host and port that it was begun with: no copy is ever started, and nothing is
/// shut down, whatever it is told afterwards.
pub proof fn lemma_failed_connection(
    endpoint: Endpoint,
    cause: IoError,
    later: Seq<Event>,
    i: int,
)
    requires
        0 <= i <= later.len(),
    ensures
        ({
            let answers = Relay::Connecting(endpoint).answers(
                seq![Event::ConnectFailed(cause)] + later,
            );
            if i == 0 {
                answers[i] == Action::Finish(
                    Report {
                        outcome: Err(
                            RelayError::Connection {
                                host: endpoint.host,
                                port: endpoint.port,
                                cause,
                            },
                        ),
                        shutdown: None,
                    },
                )
            } else {
                answers[i] is Wait
            }
        }),
{
    let events = seq![Event::ConnectFailed(cause)] + later;
    assert(events.skip(1) =~= later);
    lemma_one_answer_each(Relay::Finished, later);
    if i > 0 {
        lemma_finished_relay_waits(later, i - 1);
    }
}

proof fn lemma_closing_relay(outcome: RelayOutcome, events: Seq<Event>, i: int)
    requires
        0 <= i < events.len(),
    ensures
        ({
            let answer = Relay::Closing(outcome).answers(events)[i];
            answer is Wait || (answer is Finish && answer->Finish_0.outcome == outcome)
        }),
    decreases events.len(),
{
    let after = Relay::Closing(outcome).next(events[0]).0;
    lemma_one_answer_each(after, events.skip(1));
    if i > 0 {
        if after is Finished {
            lemma_finished_relay_waits(events.skip(1), i - 1);
        } else {
            lemma_closing_relay(outcome, events.skip(1), i - 1);
        }
    }
}

/// The copy that ends first decides. Once connected, the relay starts the two copies;
/// when it is told of the first to end it asks for the shutdown, whether that copy went
/// well or not; and whatever it is told afterwards, of the other copy or of the
/// shutdown, the outcome in its report is that of the first.
pub proof fn lemma_first_copy_decides(
    endpoint: Endpoint,
    direction: Direction,
    result: Result<(), IoError>,
    later: Seq<Event>,
    i: int,
)
    requires
        0 <= i < later.len() + 2,
    ensures
        ({
            let answer = Relay::Connecting(endpoint).answers(
                seq![Event::Connected, Event::CopyFinished(direction, result)] + later,
            )[i];
            if i == 0 {
                answer is Copy
            } else if i == 1 {
                answer is Shutdown
            } else {
                answer is Wait || (answer is Finish && answer->Finish_0.outcome == outcome_of(
                    direction,
                    result,
                ))
            }
        }),
{
    let events = seq![Event::Connected, Event::CopyFinished(direction, result)] + later;
    let rest = events.skip(1);
    assert(rest.skip(1) =~= later);
    let closing = Relay::Closing(outcome_of(direction, result));
    lemma_one_answer_each(Relay::Copying, rest);
    lemma_one_answer_each(closing, later);
    if i >= 2 {
        lemma_closing_relay(outcome_of(direction, result), later, i - 2);
    }
}

/// Every relay that connects comes to its end: whichever copy ends first and however it
/// ended, the connection is shut down next, and when that is done the relay hands back
/// its report, with the outcome of that copy, and beside it the failure of the shutdown,
/// which does not change the outcome.
pub proof fn lemma_relay_ends(
    endpoint: Endpoint,
    direction: Direction,
    result: Result<(), IoError>,
    shutdown: Result<(), IoError>,
)
    ensures
        Relay::Connecting(endpoint).answers(
            seq![
                Event::Connected,
                Event::CopyFinished(direction, result),
                Event::ShutdownDone(shutdown),
            ],
        ) == seq![
            Action::Copy,
            Action::Shutdown,
            Action::Finish(
                Report {
                    outcome: outcome_of(direction, result),
                    shutdown: match shutdown {
                        Ok(_) => None,
                        Err(cause) => Some(cause),
                    },
                },
            ),
        ],
{
    let events = seq![
        Event::Connected,
        Event::CopyFinished(direction, result),
        Event::ShutdownDone(shutdown),
    ];
    let second = events.skip(1);
    let third = second.skip(1);
    let closing = Relay::Closing(outcome_of(direction, result));
    assert(Relay::Finished.answers(third.skip(1)) =~= Seq::<Action>::empty());
    assert(Relay::Copying.answers(second) =~= seq![Action::Shutdown] + closing.answers(third));
    assert(Relay::Connecting(endpoint).answers(events) =~= seq![Action::Copy]
        + Relay::Copying.answers(second));
}

/// A stream that ends ends the relay, and ends it well. Where the source of one of the
/// two copies ends as a stream ends (the remote end has closed after what it sent, or the
/// local input is at its end) and the sink takes what the source held, that copy goes
/// well; and where it is the first to end, the relay shuts the connection down, which
/// releases the other copy, and once that is done its result is a success, whether the
/// shutdown went well or not.
pub proof fn lemma_end_of_stream_ends_relay(
    endpoint: Endpoint,
    direction: Direction,
    data: Seq<u8>,
    limit: Option<(nat, IoError)>,
    shutdown: Result<(), IoError>,
)
    requires
        write_count(limit, data.len()) == data.len(),
    ensures
        copy_result(data, None, limit) == Ok::<(), IoError>(()),
        ({
            let answers = Relay::Connecting(endpoint).answers(
                seq![
                    Event::Connected,
                    Event::CopyFinished(direction, copy_result(data, None, limit)),
                    Event::ShutdownDone(shutdown),
                ],
            );
            &&& answers.len() == 3
            &&& answers[0] is Copy
            &&& answers[1] is Shutdown
            &&& answers[2] is Finish
            &&& answers[2]->Finish_0.outcome == Ok::<(), RelayError>(())
        }),
{
    lemma_relay_ends(endpoint, direction, Ok(()), shutdown);
}

} // verus!
