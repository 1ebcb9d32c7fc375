//! The duplex byte-pump: two independent loops over one connection.
//!
//! The inbound loop relays bytes from the connection to standard output;
//! the outbound loop relays lines from standard input to the connection.
//! Each loop hands what it observed to a step function here and carries
//! out the returned action. The asymmetry of shutdown is deliberate: a
//! peer close or socket error terminates the whole process at once, while
//! local end of input only shuts the connection down and lets the inbound
//! loop observe the resulting close and perform the exit.

use vstd::prelude::*;

verus! {

/// Why the pump phase ended; every outcome ends the process with
/// success status.
#[derive(Clone, Copy, Debug, PartialEq, Eq, Structural)]
pub enum SessionOutcome {
    /// The connection returned a zero-length read: the peer closed.
    PeerClosed,
    /// The connection was reset by the peer.
    ConnectionReset,
    /// Reading from the connection failed for any other reason.
    ReadError,
}

/// What one iteration of the inbound loop observed on the connection.
pub enum InboundEvent {
    /// A read returned these bytes; a zero-length read means the peer
    /// closed the connection.
    Bytes(Vec<u8>),
    /// The read failed because the connection was reset.
    Reset,
    /// The read failed for any other reason.
    Failed,
}

/// The mathematical model of an [`InboundEvent`].
pub enum InboundEventModel {
    Bytes(Seq<u8>),
    Reset,
    Failed,
}

impl View for InboundEvent {
    type V = InboundEventModel;

    open spec fn view(&self) -> InboundEventModel {
        match self {
            InboundEvent::Bytes(b) => InboundEventModel::Bytes(b@),
            InboundEvent::Reset => InboundEventModel::Reset,
            InboundEvent::Failed => InboundEventModel::Failed,
        }
    }
}

/// What the inbound loop must do in response to an event.
pub enum InboundAction {
    /// Write these bytes verbatim to standard output and flush at once.
    Output(Vec<u8>),
    /// Terminate the whole process immediately with this outcome.
    Exit(SessionOutcome),
}

/// The mathematical model of an [`InboundAction`].
pub enum InboundActionModel {
    Output(Seq<u8>),
    Exit(SessionOutcome),
}

impl View for InboundAction {
    type V = InboundActionModel;

    open spec fn view(&self) -> InboundActionModel {
        match self {
            InboundAction::Output(b) => InboundActionModel::Output(b@),
            InboundAction::Exit(o) => InboundActionModel::Exit(*o),
        }
    }
}

/// The inbound automaton: non-empty bytes are relayed verbatim; a
/// zero-length read exits with "peer closed"; a reset or any other read
/// failure exits with the matching outcome. Every exit is immediate,
/// whatever the outbound loop is doing.
pub open spec fn inbound_transition(ev: InboundEventModel) -> InboundActionModel {
    match ev {
        InboundEventModel::Bytes(b) => {
            if b.len() == 0 {
                InboundActionModel::Exit(SessionOutcome::PeerClosed)
            } else {
                InboundActionModel::Output(b)
            }
        },
        InboundEventModel::Reset => InboundActionModel::Exit(SessionOutcome::ConnectionReset),
        InboundEventModel::Failed => InboundActionModel::Exit(SessionOutcome::ReadError),
    }
}

/// Decide what the inbound loop does with what it read.
pub fn inbound_step(ev: InboundEvent) -> (a: InboundAction)
    ensures
        a@ == inbound_transition(ev@),
{
    match ev {
        InboundEvent::Bytes(b) => {
            if b.len() == 0 {
                InboundAction::Exit(SessionOutcome::PeerClosed)
            } else {
                InboundAction::Output(b)
            }
        },
        InboundEvent::Reset => InboundAction::Exit(SessionOutcome::ConnectionReset),
        InboundEvent::Failed => InboundAction::Exit(SessionOutcome::ReadError),
    }
}

/// What one iteration of the outbound loop observed on local input.
pub enum OutboundEvent {
    /// A line read returned these bytes, terminating newline included;
    /// a zero-length read means the input source is exhausted.
    Line(Vec<u8>),
    /// The line read failed.
    Failed,
}

/// The mathematical model of an [`OutboundEvent`].
pub enum OutboundEventModel {
    Line(Seq<u8>),
    Failed,
}

impl View for OutboundEvent {
    type V = OutboundEventModel;

    open spec fn view(&self) -> OutboundEventModel {
        match self {
            OutboundEvent::Line(l) => OutboundEventModel::Line(l@),
            OutboundEvent::Failed => OutboundEventModel::Failed,
        }
    }
}

/// What the outbound loop must do in response to an event.
pub enum OutboundAction {
    /// Write these bytes verbatim to the connection and keep looping.
    Send(Vec<u8>),
    /// Input ended normally: stop looping and shut the whole connection
    /// down, without terminating the process.
    Shutdown,
    /// Report the input error, then stop and shut down as on normal end.
    ReportAndShutdown,
}

/// The mathematical model of an [`OutboundAction`].
pub enum OutboundActionModel {
    Send(Seq<u8>),
    Shutdown,
    ReportAndShutdown,
}

impl View for OutboundAction {
    type V = OutboundActionModel;

    open spec fn view(&self) -> OutboundActionModel {
        match self {
            OutboundAction::Send(l) => OutboundActionModel::Send(l@),
            OutboundAction::Shutdown => OutboundActionModel::Shutdown,
            OutboundAction::ReportAndShutdown => OutboundActionModel::ReportAndShutdown,
        }
    }
}

/// The outbound automaton: a non-empty line is sent verbatim; a
/// zero-length read means end of input and shuts the connection down;
/// an input error is reported and then shuts down the same way. No
/// outbound event terminates the process.
pub open spec fn outbound_transition(ev: OutboundEventModel) -> OutboundActionModel {
    match ev {
        OutboundEventModel::Line(l) => {
            if l.len() == 0 {
                OutboundActionModel::Shutdown
            } else {
                OutboundActionModel::Send(l)
            }
        },
        OutboundEventModel::Failed => OutboundActionModel::ReportAndShutdown,
    }
}

/// Decide what the outbound loop does with the line it read.
pub fn outbound_step(ev: OutboundEvent) -> (a: OutboundAction)
    ensures
        a@ == outbound_transition(ev@),
{
    match ev {
        OutboundEvent::Line(l) => {
            if l.len() == 0 {
                OutboundAction::Shutdown
            } else {
                OutboundAction::Send(l)
            }
        },
        OutboundEvent::Failed => OutboundAction::ReportAndShutdown,
    }
}

/// Law: the outbound loop never sends an empty payload; a zero-length
/// line read signals end of input, never an empty send.
pub proof fn lemma_no_empty_send(ev: OutboundEventModel)
    ensures
        outbound_transition(ev) matches OutboundActionModel::Send(d) ==> d.len() > 0,
{
}

/// The bytes the outbound loop writes to the connection when it observes
/// these events in order; the loop stops at the first event that is not
/// a non-empty line.
pub open spec fn outbound_sent(evs: Seq<OutboundEventModel>) -> Seq<u8>
    decreases evs.len(),
{
    if evs.len() == 0 {
        Seq::empty()
    } else {
        match outbound_transition(evs[0]) {
            OutboundActionModel::Send(d) => d + outbound_sent(evs.drop_first()),
            OutboundActionModel::Shutdown => Seq::empty(),
            OutboundActionModel::ReportAndShutdown => Seq::empty(),
        }
    }
}

/// The concatenation of the lines the input source yielded before it
/// ended or failed, verbatim and in order.
pub open spec fn lines_before_end(evs: Seq<OutboundEventModel>) -> Seq<u8>
    decreases evs.len(),
{
    if evs.len() == 0 {
        Seq::empty()
    } else {
        match evs[0] {
            OutboundEventModel::Line(l) => {
                if l.len() == 0 {
                    Seq::empty()
                } else {
                    l + lines_before_end(evs.drop_first())
                }
            },
            OutboundEventModel::Failed => Seq::empty(),
        }
    }
}

/// Law (round trip): whatever events the input source yields, the bytes
/// the outbound loop sends are exactly the line bytes it was handed,
/// newline included, in order, with nothing added, lost or reordered.
pub proof fn lemma_outbound_round_trip(evs: Seq<OutboundEventModel>)
    ensures
        outbound_sent(evs) == lines_before_end(evs),
    decreases evs.len(),
{
    if evs.len() > 0 {
        lemma_outbound_round_trip(evs.drop_first());
    }
}

/// The bytes the inbound loop writes to standard output when it observes
/// these events in order; the loop's first zero-length read, reset or
/// failure terminates the process and nothing further is written.
pub open spec fn inbound_printed(evs: Seq<InboundEventModel>) -> Seq<u8>
    decreases evs.len(),
{
    if evs.len() == 0 {
        Seq::empty()
    } else {
        match inbound_transition(evs[0]) {
            InboundActionModel::Output(d) => d + inbound_printed(evs.drop_first()),
            InboundActionModel::Exit(_) => Seq::empty(),
        }
    }
}

/// The concatenation of the chunks the connection yielded before the
/// peer closed, reset or the read failed, verbatim and in order.
pub open spec fn chunks_before_end(evs: Seq<InboundEventModel>) -> Seq<u8>
    decreases evs.len(),
{
    if evs.len() == 0 {
        Seq::empty()
    } else {
        match evs[0] {
            InboundEventModel::Bytes(b) => {
                if b.len() == 0 {
                    Seq::empty()
                } else {
                    b + chunks_before_end(evs.drop_first())
                }
            },
            InboundEventModel::Reset => Seq::empty(),
            InboundEventModel::Failed => Seq::empty(),
        }
    }
}

/// Law: the inbound loop prints exactly the bytes the connection
/// yielded, as received and in order, however the reads were chunked.
pub proof fn lemma_inbound_verbatim(evs: Seq<InboundEventModel>)
    ensures
        inbound_printed(evs) == chunks_before_end(evs),
    decreases evs.len(),
{
    if evs.len() > 0 {
        lemma_inbound_verbatim(evs.drop_first());
    }
}

/// The message announcing an outcome. For a read error the caller
/// appends the error's own text after a separating colon.
pub fn outcome_message(o: SessionOutcome) -> (m: &'static str)
    ensures
        o == SessionOutcome::PeerClosed ==> m@ == "Connection closed by server."@,
        o == SessionOutcome::ConnectionReset ==> m@ == "Connection was reset by the server."@,
        o == SessionOutcome::ReadError ==> m@ == "Error reading from socket"@,
{
    match o {
        SessionOutcome::PeerClosed => "Connection closed by server.",
        SessionOutcome::ConnectionReset => "Connection was reset by the server.",
        SessionOutcome::ReadError => "Error reading from socket",
    }
}

/// The process exit status for a pump-phase outcome: always success,
/// whichever way the session ended.
pub fn outcome_exit_code(o: SessionOutcome) -> (c: i32)
    ensures
        c == 0,
{
    match o {
        SessionOutcome::PeerClosed => 0,
        SessionOutcome::ConnectionReset => 0,
        SessionOutcome::ReadError => 0,
    }
}

/// The message printed when local input is exhausted and the connection
/// is about to be shut down.
pub fn input_finished_message() -> (m: &'static str)
    ensures
        m@ == "Input finished, shutting down socket."@,
{
    "Input finished, shutting down socket."
}

/// The message announcing an input read error; the caller appends the
/// error's own text after a separating colon.
pub fn input_error_message() -> (m: &'static str)
    ensures
        m@ == "Error reading from stdin"@,
{
    "Error reading from stdin"
}

/// The message announcing a shutdown failure, which is reported and
/// otherwise ignored; the caller appends the error's own text after a
/// separating colon.
pub fn shutdown_error_message() -> (m: &'static str)
    ensures
        m@ == "Error shutting down socket"@,
{
    "Error shutting down socket"
}

} // verus!

