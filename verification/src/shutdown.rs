//! The shutdown handshake: one request, a standing signal, and the
//! acknowledgement of every task that was told.

use tokio::sync::mpsc;
use tokio::sync::oneshot;
use tokio::sync::watch;
use vstd::prelude::*;

verus! {

/// The sending end of a channel for one message.
#[verifier::external_type_specification]
#[verifier::external_body]
#[verifier::reject_recursive_types(T)]
pub struct ExOneshotSender<T>(oneshot::Sender<T>);

/// The receiving end of a channel for one message.
#[verifier::external_type_specification]
#[verifier::external_body]
#[verifier::reject_recursive_types(T)]
pub struct ExOneshotReceiver<T>(oneshot::Receiver<T>);

/// What the receiving end of a channel for one message yields where the
/// sending end was dropped with nothing sent.
#[verifier::external_type_specification]
#[verifier::external_body]
pub struct ExOneshotRecvError(oneshot::error::RecvError);

/// The sending end of a channel that keeps its latest value.
#[verifier::external_type_specification]
#[verifier::external_body]
#[verifier::reject_recursive_types(T)]
pub struct ExWatchSender<T>(watch::Sender<T>);

/// A receiving end of a channel that keeps its latest value.
#[verifier::external_type_specification]
#[verifier::external_body]
#[verifier::reject_recursive_types(T)]
pub struct ExWatchReceiver<T>(watch::Receiver<T>);

/// What comes back where a value could not be sent because no receiver is left.
#[verifier::external_type_specification]
#[verifier::external_body]
#[verifier::reject_recursive_types(T)]
pub struct ExWatchSendError<T>(watch::error::SendError<T>);

/// A sending end of a channel without bound.
#[verifier::external_type_specification]
#[verifier::external_body]
#[verifier::reject_recursive_types(T)]
pub struct ExUnboundedSender<T>(mpsc::UnboundedSender<T>);

/// The receiving end of a channel without bound.
#[verifier::external_type_specification]
#[verifier::external_body]
#[verifier::reject_recursive_types(T)]
pub struct ExUnboundedReceiver<T>(mpsc::UnboundedReceiver<T>);

/// `tokio::sync::oneshot::channel`: the two ends of a new channel for one
/// message. Nothing is claimed of them.
#[verifier::external_body]
fn trigger_channel() -> (oneshot::Sender<()>, oneshot::Receiver<()>) {
    oneshot::channel::<()>()
}

/// `tokio::sync::watch::channel`: the two ends of a new channel that holds
/// `init` until something is sent. Nothing is claimed of them.
#[verifier::external_body]
fn signal_channel(init: bool) -> (watch::Sender<bool>, watch::Receiver<bool>) {
    watch::channel(init)
}

/// `tokio::sync::mpsc::unbounded_channel`: the two ends of a new channel
/// without bound. Nothing is claimed of them.
#[verifier::external_body]
fn ack_channel() -> (mpsc::UnboundedSender<()>, mpsc::UnboundedReceiver<()>) {
    mpsc::unbounded_channel::<()>()
}

/// `tokio::sync::watch::Sender::send`: puts `value` into the channel for every
/// receiver to see, and fails where no receiver is left. Which of the two
/// happens rests with the other tasks, so nothing is claimed of the result.
#[verifier::external_body]
fn signal_send(sender: &watch::Sender<bool>, value: bool) -> Result<(), watch::error::SendError<bool>> {
    sender.send(value)
}

/// `tokio::sync::watch::Receiver::borrow`: the value that the channel holds at
/// this moment. It rests with the sender, so nothing is claimed of it.
#[verifier::external_body]
pub(crate) fn signal_read(receiver: &watch::Receiver<bool>) -> bool {
    *receiver.borrow()
}

/// How far the handshake has come.
#[derive(Clone, Copy, Debug, PartialEq, Eq, Structural)]
pub enum Phase {
    /// No shutdown was asked for; the tasks work.
    Running,
    /// Shutdown was asked for; the signal stands for every task to see.
    Signaled,
    /// Every task has let go of its handle; the end state.
    Acknowledged,
}

impl Phase {
    /// The place of the phase in the order of the handshake.
    pub open spec fn rank(self) -> nat {
        match self {
            Phase::Running => 0,
            Phase::Signaled => 1,
            Phase::Acknowledged => 2,
        }
    }
}

/// Why a step of the handshake is refused.
#[derive(Clone, Copy, Debug, PartialEq, Eq, Structural)]
pub enum ShutdownError {
    /// The step does not fit the phase: a second request, an acknowledgement
    /// before the signal, or one with no handle left to let go of.
    ProtocolViolation,
}

/// What the handshake holds.
pub struct HandshakeState {
    /// The phase.
    pub phase: Phase,
    /// The acknowledgement handles that tasks still hold.
    pub handles: nat,
}

impl HandshakeState {
    /// Whether one more handle can be given out: only before the request, and
    /// only while the count can still be held.
    pub open spec fn may_add_handle(self) -> bool {
        self.phase is Running && self.handles < usize::MAX
    }

    /// Whether a request is in order: only before the first one.
    pub open spec fn may_request(self) -> bool {
        self.phase is Running
    }

    /// Whether an acknowledgement is in order: after the signal, while a handle is held.
    pub open spec fn may_acknowledge(self) -> bool {
        self.phase is Signaled && self.handles > 0
    }

    /// Whether the wait for the acknowledgements is over: the signal stands and
    /// no handle is held, or it was over before.
    pub open spec fn done(self) -> bool {
        self.phase is Acknowledged || (self.phase is Signaled && self.handles == 0)
    }
}

/// A step of the handshake.
pub enum Step {
    /// One more handle is given out.
    AddHandle,
    /// Shutdown is asked for.
    Request,
    /// A task lets go of its handle.
    Acknowledge,
    /// The coordinator looks whether all have acknowledged.
    Finish,
}

/// The handshake after one step; a step that is refused changes nothing.
pub open spec fn step(s: HandshakeState, by: Step) -> HandshakeState {
    match by {
        Step::AddHandle => if s.may_add_handle() {
            HandshakeState { handles: s.handles + 1, ..s }
        } else {
            s
        },
        Step::Request => if s.may_request() {
            HandshakeState { phase: Phase::Signaled, ..s }
        } else {
            s
        },
        Step::Acknowledge => if s.may_acknowledge() {
            HandshakeState { handles: (s.handles - 1) as nat, ..s }
        } else {
            s
        },
        Step::Finish => if s.done() {
            HandshakeState { phase: Phase::Acknowledged, ..s }
        } else {
            s
        },
    }
}

/// Whether the signal to stop stands in a phase: in every phase but the first.
pub open spec fn signal_of(phase: Phase) -> bool {
    !(phase is Running)
}

/// The value that the signal channel is to hold in a phase: raised in every
/// phase but the first.
pub fn signal_for(phase: Phase) -> (raised: bool)
    ensures
        raised == signal_of(phase),
{
    !(phase == Phase::Running)
}

/// The coordinator of the handshake: it keeps the phase and counts the handles.
pub struct Handshake {
    phase: Phase,
    handles: usize,
}

impl View for Handshake {
    type V = HandshakeState;

    closed spec fn view(&self) -> HandshakeState {
        HandshakeState { phase: self.phase, handles: self.handles as nat }
    }
}

impl Handshake {
    /// A coordinator before any request, with one acknowledgement handle given out.
    pub fn new() -> (s: Handshake)
        ensures
            s@ == (HandshakeState { phase: Phase::Running, handles: 1 }),
    {
        Handshake { phase: Phase::Running, handles: 1 }
    }

    /// The phase.
    pub fn phase(&self) -> (p: Phase)
        ensures
            p == self@.phase,
    {
        self.phase
    }

    /// The number of acknowledgement handles still held.
    pub fn handles(&self) -> (n: usize)
        ensures
            n == self@.handles,
    {
        self.handles
    }

    /// Gives out one more acknowledgement handle, for one more task. Only before
    /// the request, and only while the count can still be held.
    pub fn add_handle(&mut self) -> (r: Result<(), ShutdownError>)
        ensures
            old(self)@.may_add_handle() <==> r is Ok,
            final(self)@ == step(old(self)@, Step::AddHandle),
    {
        if self.phase == Phase::Running && self.handles < usize::MAX {
            self.handles = self.handles + 1;
            Ok(())
        } else {
            Err(ShutdownError::ProtocolViolation)
        }
    }

    /// Asks for shutdown. The first request raises the signal; any later one is refused.
    pub fn request_shutdown(&mut self) -> (r: Result<(), ShutdownError>)
        ensures
            old(self)@.may_request() <==> r is Ok,
            final(self)@ == step(old(self)@, Step::Request),
    {
        if self.phase == Phase::Running {
            self.phase = Phase::Signaled;
            Ok(())
        } else {
            Err(ShutdownError::ProtocolViolation)
        }
    }

    /// Takes note of an attempt to raise the signal. Where shutdown was not
    /// asked for before and the signal was raised, the handshake is signaled;
    /// otherwise the step is refused and nothing changes.
    pub fn signal_sent(&mut self, sent: bool) -> (r: Result<(), ShutdownError>)
        ensures
            (old(self)@.may_request() && sent) <==> r is Ok,
            final(self)@ == if sent {
                step(old(self)@, Step::Request)
            } else {
                old(self)@
            },
    {
        if sent {
            self.request_shutdown()
        } else {
            Err(ShutdownError::ProtocolViolation)
        }
    }

    /// Whether shutdown was asked for. Once true it stays true.
    pub fn is_shutdown_requested(&self) -> (b: bool)
        ensures
            b == signal_of(self@.phase),
    {
        !(self.phase == Phase::Running)
    }

    /// A task that saw the signal lets go of its handle. Refused before the
    /// signal and where no handle is held.
    pub fn acknowledge_and_exit(&mut self) -> (r: Result<(), ShutdownError>)
        ensures
            old(self)@.may_acknowledge() <==> r is Ok,
            final(self)@ == step(old(self)@, Step::Acknowledge),
    {
        if self.phase == Phase::Signaled && self.handles > 0 {
            self.handles = self.handles - 1;
            Ok(())
        } else {
            Err(ShutdownError::ProtocolViolation)
        }
    }

    /// Whether every task has acknowledged. Where the signal stands and no handle
    /// is held, the handshake enters its end state; otherwise nothing changes.
    pub fn all_acknowledged(&mut self) -> (b: bool)
        ensures
            b == old(self)@.done(),
            final(self)@ == step(old(self)@, Step::Finish),
    {
        if self.phase == Phase::Acknowledged {
            true
        } else if self.phase == Phase::Signaled && self.handles == 0 {
            self.phase = Phase::Acknowledged;
            true
        } else {
            false
        }
    }
}

/// The handshake with its channel ends: the trigger that the input task fires
/// by ending, the signal that tells the other tasks to stop, and the
/// acknowledgement that ends when every task has let go of its sender.
pub struct Shutdown {
    pub trigger_send: oneshot::Sender<()>,
    pub trigger_recv: oneshot::Receiver<()>,
    pub signal_send: watch::Sender<bool>,
    pub signal_recv: watch::Receiver<bool>,
    pub ack_send: mpsc::UnboundedSender<()>,
    pub ack_recv: mpsc::UnboundedReceiver<()>,
    /// The phase, and the count of the acknowledgement senders given out.
    pub handshake: Handshake,
}

impl Shutdown {
    /// Three new channels and a handshake before any request, with the one
    /// acknowledgement sender counted as given out. The signal channel is made
    /// with the signal of the handshake's first phase: not raised.
    pub fn new() -> (s: Shutdown)
        ensures
            s.handshake@ == (HandshakeState { phase: Phase::Running, handles: 1 }),
    {
        let handshake = Handshake::new();
        let (trigger_send, trigger_recv) = trigger_channel();
        let (signal_send, signal_recv) = signal_channel(signal_for(handshake.phase()));
        let (ack_send, ack_recv) = ack_channel();
        Shutdown {
            trigger_send,
            trigger_recv,
            signal_send,
            signal_recv,
            ack_send,
            ack_recv,
            handshake,
        }
    }
}

/// Asks for shutdown and raises the signal for the other tasks: the value sent
/// is the signal of the phase that the handshake then enters. Refused where
/// shutdown was asked for before, and where the signal cannot be raised because
/// no task is left to see it; nothing changes then.
pub fn signal_shutdown(handshake: &mut Handshake, signal_send: &watch::Sender<bool>) -> (r: Result<
    (),
    ShutdownError,
>)
    ensures
        r is Ok ==> old(handshake)@.may_request(),
        final(handshake)@ == if r is Ok {
            step(old(handshake)@, Step::Request)
        } else {
            old(handshake)@
        },
{
    if handshake.is_shutdown_requested() {
        Err(ShutdownError::ProtocolViolation)
    } else {
        let raised: bool = signal_for(Phase::Signaled);
        let sent: bool = match self::signal_send(signal_send, raised) {
            Ok(()) => true,
            Err(_) => false,
        };
        handshake.signal_sent(sent)
    }
}

/// The handshake only moves forward, one phase at a time, and the signal, once
/// raised, stays for every later step to see.
pub proof fn lemma_step_moves_forward(s: HandshakeState, by: Step)
    ensures
        s.phase.rank() <= step(s, by).phase.rank() <= s.phase.rank() + 1,
        !(s.phase is Running) ==> !(step(s, by).phase is Running),
{
}

/// The end state is reached only from a standing signal with no handle held.
pub proof fn lemma_end_state_needs_all_handles(s: HandshakeState, by: Step)
    requires
        !(s.phase is Acknowledged),
        step(s, by).phase is Acknowledged,
    ensures
        s.phase is Signaled,
        s.handles == 0,
        by is Finish,
{
}

} // verus!
