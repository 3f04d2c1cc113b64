//! The frame channel on top of an established session.
//!
//! A frame is a run of bytes that means something to the RPC engine and
//! nothing to this layer. One frame travels in one binary message, and one
//! data message that arrives is one frame. The channel keeps track of
//! whether its session can still be used, and says what each thing that
//! happens on the session means for the side that reads or writes frames.

use crate::error::{SessionFault, TransportError};
use crate::foreign::{
    binary_message, binary_message_of, fault_kind, fault_of, message_parts, parts_of,
};
use tokio_tungstenite::tungstenite::Error as WsError;
use tokio_tungstenite::tungstenite::Message;
use vstd::prelude::*;

verus! {

/// What one side of the channel knows of its session.
#[derive(Debug, Clone, Copy, PartialEq, Eq, Structural)]
pub enum SessionState {
    /// Frames can be read and written.
    Open,
    /// The session has ended.
    Closed,
    /// The session has broken.
    Failed,
}

/// The kinds of WebSocket message.
#[derive(Debug, Clone, Copy, PartialEq, Eq, Structural)]
pub enum MessageKind {
    Text,
    Binary,
    Ping,
    Pong,
    Close,
}

/// A message as the channel reads it: its kind and the bytes it carries.
#[derive(Debug, PartialEq, Eq)]
pub struct WireMessage {
    pub kind: MessageKind,
    pub payload: Vec<u8>,
}

/// What the session gave when it was asked for its next message.
#[derive(Debug)]
pub enum SessionEvent {
    /// One whole message.
    Message(WireMessage),
    /// The stream of messages is over.
    Ended,
    /// The session reported a fault.
    Fault(SessionFault),
}

/// A message with its payload as a sequence of bytes.
pub ghost struct WireMessageView {
    pub kind: MessageKind,
    pub payload: Seq<u8>,
}

/// A session event with the payload of its message as a sequence of bytes.
pub ghost enum SessionEventView {
    Message(WireMessageView),
    Ended,
    Fault(SessionFault),
}

impl View for WireMessage {
    type V = WireMessageView;

    open spec fn view(&self) -> WireMessageView {
        WireMessageView { kind: self.kind, payload: self.payload@ }
    }
}

impl View for SessionEvent {
    type V = SessionEventView;

    open spec fn view(&self) -> SessionEventView {
        match *self {
            SessionEvent::Message(message) => SessionEventView::Message(message@),
            SessionEvent::Ended => SessionEventView::Ended,
            SessionEvent::Fault(fault) => SessionEventView::Fault(fault),
        }
    }
}

impl MessageKind {
    /// Whether a message of this kind carries a frame. Text and binary
    /// messages do; pings and pongs belong to the session, and a close
    /// message ends it.
    pub open spec fn carries_frame(self) -> bool {
        self == MessageKind::Text || self == MessageKind::Binary
    }
}

impl SessionEventView {
    /// The event for what the stream of a session gave: a message taken
    /// apart, the kind of an error, or the end of the stream.
    pub open spec fn of(item: Option<Result<Message, WsError>>) -> SessionEventView {
        match item {
            Some(Ok(message)) => SessionEventView::Message(message_parts(message)),
            Some(Err(error)) => SessionEventView::Fault(fault_kind(error)),
            None => SessionEventView::Ended,
        }
    }

    /// Whether the event is the last that an open session gives: the end
    /// of the stream, a close message, or a fault.
    pub open spec fn ends_frames(self) -> bool {
        match self {
            SessionEventView::Message(message) => message.kind == MessageKind::Close,
            SessionEventView::Ended => true,
            SessionEventView::Fault(_) => true,
        }
    }

    /// Whether the event is a ping or a pong.
    pub open spec fn is_control(self) -> bool {
        match self {
            SessionEventView::Message(message) => message.kind == MessageKind::Ping
                || message.kind == MessageKind::Pong,
            _ => false,
        }
    }
}

impl SessionState {
    /// The error that a frame operation fails with in this state, if it
    /// fails.
    pub open spec fn refusal(self) -> Option<TransportError> {
        match self {
            SessionState::Open => None,
            SessionState::Closed => Some(TransportError::ConnectionClosed),
            SessionState::Failed => Some(TransportError::IoError),
        }
    }

    /// The state that a fault leaves a session in.
    pub open spec fn of_fault(fault: SessionFault) -> SessionState {
        if fault.ends_session() {
            SessionState::Closed
        } else {
            SessionState::Failed
        }
    }

    /// The state after a fault has been met in this state. The first
    /// fault decides; a session that is no longer open stays as it is.
    pub open spec fn after_fault(self, fault: SessionFault) -> SessionState {
        match self {
            SessionState::Open => SessionState::of_fault(fault),
            _ => self,
        }
    }

    /// The error of the operation that met a fault in this state.
    pub open spec fn fault_error(self, fault: SessionFault) -> TransportError {
        match self.refusal() {
            Some(error) => error,
            None => TransportError::of_fault(fault),
        }
    }

    /// The state after an event has been taken in this state.
    pub open spec fn after(self, event: SessionEventView) -> SessionState {
        match event {
            SessionEventView::Message(message) => if message.kind == MessageKind::Close {
                self.after_fault(SessionFault::ConnectionClosed)
            } else {
                self
            },
            SessionEventView::Ended => self.after_fault(SessionFault::ConnectionClosed),
            SessionEventView::Fault(fault) => self.after_fault(fault),
        }
    }

    /// What a read gives for an event taken in this state: a frame, no
    /// frame yet, or the error of the read.
    pub open spec fn read(self, event: SessionEventView) -> Result<
        Option<Seq<u8>>,
        TransportError,
    > {
        match self.refusal() {
            Some(error) => Err(error),
            None => match event {
                SessionEventView::Message(message) => if message.kind.carries_frame() {
                    Ok(Some(message.payload))
                } else if message.kind == MessageKind::Close {
                    Err(TransportError::ConnectionClosed)
                } else {
                    Ok(None)
                },
                SessionEventView::Ended => Err(TransportError::ConnectionClosed),
                SessionEventView::Fault(fault) => Err(TransportError::of_fault(fault)),
            },
        }
    }
}

impl SessionEvent {
    /// The event for what the stream of a session gave: a message, an
    /// error, or nothing more.
    pub fn of(item: Option<Result<Message, WsError>>) -> (event: SessionEvent)
        ensures
            event@ == SessionEventView::of(item),
    {
        match item {
            Some(Ok(message)) => SessionEvent::Message(parts_of(message)),
            Some(Err(error)) => SessionEvent::Fault(fault_of(&error)),
            None => SessionEvent::Ended,
        }
    }
}

/// One side of the frame channel: the reading side or the writing side of
/// a connection that has been split.
#[derive(Debug)]
pub struct FrameChannel {
    state: SessionState,
}

impl View for FrameChannel {
    type V = SessionState;

    closed spec fn view(&self) -> SessionState {
        self.state
    }
}

impl FrameChannel {
    /// The channel over a session that was just established.
    pub fn new() -> (channel: FrameChannel)
        ensures
            channel@ == SessionState::Open,
    {
        FrameChannel { state: SessionState::Open }
    }

    /// What the channel knows of its session.
    pub fn state(&self) -> (state: SessionState)
        ensures
            state == self@,
    {
        self.state
    }

    /// Whether a frame operation may go to the session: `Ok` while the
    /// session is open, else the error that the operation fails with.
    pub fn ready(&self) -> (verdict: Result<(), TransportError>)
        ensures
            match self@.refusal() {
                None => verdict is Ok,
                Some(error) => verdict == Err::<(), TransportError>(error),
            },
    {
        match self.state {
            SessionState::Open => Ok(()),
            SessionState::Closed => Err(TransportError::ConnectionClosed),
            SessionState::Failed => Err(TransportError::IoError),
        }
    }

    /// Takes a frame to write. While the session is open the result is the
    /// one message to submit: the binary message whose payload is the
    /// frame, byte for byte. Else the write fails and nothing is to be
    /// submitted.
    pub fn send(&self, frame: Vec<u8>) -> (submitted: Result<Message, TransportError>)
        ensures
            match self@.refusal() {
                None => {
                    &&& submitted == Ok::<Message, TransportError>(binary_message_of(frame@))
                    &&& submitted matches Ok(message) && carries(message, frame@)
                },
                Some(error) => submitted == Err::<Message, TransportError>(error),
            },
    {
        match self.ready() {
            Ok(()) => Ok(binary_message(frame)),
            Err(error) => Err(error),
        }
    }

    /// Records that the session reported a fault, and gives the error of
    /// the operation that met it. Nothing is tried again.
    pub fn fail(&mut self, fault: SessionFault) -> (error: TransportError)
        ensures
            final(self)@ == old(self)@.after_fault(fault),
            error == old(self)@.fault_error(fault),
    {
        match self.state {
            SessionState::Open => {
                let error = TransportError::from_fault(fault);
                match error {
                    TransportError::ConnectionClosed => {
                        self.state = SessionState::Closed;
                    },
                    _ => {
                        self.state = SessionState::Failed;
                    },
                }
                error
            },
            SessionState::Closed => TransportError::ConnectionClosed,
            SessionState::Failed => TransportError::IoError,
        }
    }

    /// Records an error that the session answered a write with, and gives
    /// the error of the write: what [`FrameChannel::fail`] gives for the
    /// kind of the error.
    pub fn fail_with(&mut self, cause: &WsError) -> (error: TransportError)
        ensures
            final(self)@ == old(self)@.after_fault(fault_kind(*cause)),
            error == old(self)@.fault_error(fault_kind(*cause)),
    {
        self.fail(fault_of(cause))
    }

    /// Takes what the session gave for a read. A text or binary message is
    /// one frame, with the payload unchanged. A ping or a pong is no
    /// frame, and the read is to be repeated. A close message or the end
    /// of the stream ends the sequence of frames, and a fault breaks it;
    /// every later read fails in the same way.
    pub fn receive(&mut self, event: SessionEvent) -> (frame: Result<
        Option<Vec<u8>>,
        TransportError,
    >)
        ensures
            final(self)@ == old(self)@.after(event@),
            match old(self)@.read(event@) {
                Ok(Some(payload)) => frame matches Ok(Some(bytes)) && bytes@ == payload,
                Ok(None) => frame matches Ok(None),
                Err(error) => frame == Err::<Option<Vec<u8>>, TransportError>(error),
            },
    {
        match event {
            SessionEvent::Message(message) => match message.kind {
                MessageKind::Text | MessageKind::Binary => match self.ready() {
                    Ok(()) => Ok(Some(message.payload)),
                    Err(error) => Err(error),
                },
                MessageKind::Ping | MessageKind::Pong => match self.ready() {
                    Ok(()) => Ok(None),
                    Err(error) => Err(error),
                },
                MessageKind::Close => Err(self.fail(SessionFault::ConnectionClosed)),
            },
            SessionEvent::Ended => Err(self.fail(SessionFault::ConnectionClosed)),
            SessionEvent::Fault(fault) => Err(self.fail(fault)),
        }
    }
}

/// Whether a message is the one message that carries a frame: whether it
/// is taken apart into the kind `Binary` and the bytes of the frame.
pub open spec fn carries(message: Message, frame: Seq<u8>) -> bool {
    message_parts(message) == (WireMessageView { kind: MessageKind::Binary, payload: frame })
}

/// Whether `messages` are what writing `frames` on an open channel
/// submits: one message for each frame, in the order of writing.
pub open spec fn submitted_for(messages: Seq<Message>, frames: Seq<Seq<u8>>) -> bool {
    &&& messages.len() == frames.len()
    &&& forall|i: int| 0 <= i < frames.len() ==> carries(#[trigger] messages[i], frames[i])
}

/// The events that a session gives as messages arrive on it, one event for
/// each message, in the order of arrival.
pub open spec fn arrivals(messages: Seq<Message>) -> Seq<SessionEventView> {
    Seq::new(messages.len(), |i: int| SessionEventView::of(Some(Ok(messages[i]))))
}

/// The frames that successive reads give for a run of events, up to the
/// first read that fails.
pub open spec fn frames_read(state: SessionState, events: Seq<SessionEventView>) -> Seq<Seq<u8>>
    decreases events.len(),
{
    if events.len() == 0 {
        Seq::empty()
    } else {
        match state.read(events[0]) {
            Ok(Some(payload)) => seq![payload] + frames_read(
                state.after(events[0]),
                events.skip(1),
            ),
            Ok(None) => frames_read(state.after(events[0]), events.skip(1)),
            Err(_) => Seq::empty(),
        }
    }
}

/// A frame that is written and whose message arrives is read as it was
/// written, and leaves the reading side open.
pub proof fn lemma_frame_round_trip(frame: Seq<u8>, message: Message)
    requires
        carries(message, frame),
    ensures
        SessionState::Open.read(SessionEventView::of(Some(Ok(message)))) == Ok::<
            Option<Seq<u8>>,
            TransportError,
        >(Some(frame)),
        SessionState::Open.after(SessionEventView::of(Some(Ok(message)))) == SessionState::Open,
{
}

/// Frames written on one side are the frames read on the other, where the
/// messages submitted for them arrive: as many, in the same order, each
/// with the same bytes.
pub proof fn lemma_frames_round_trip(frames: Seq<Seq<u8>>, messages: Seq<Message>)
    requires
        submitted_for(messages, frames),
    ensures
        frames_read(SessionState::Open, arrivals(messages)) == frames,
    decreases frames.len(),
{
    if frames.len() > 0 {
        assert(carries(messages[0], frames[0]));
        assert(submitted_for(messages.skip(1), frames.skip(1))) by {
            assert forall|i: int| 0 <= i < frames.skip(1).len() implies carries(
                #[trigger] messages.skip(1)[i],
                frames.skip(1)[i],
            ) by {
                assert(carries(messages[i + 1], frames[i + 1]));
            }
        }
        assert(arrivals(messages).skip(1) =~= arrivals(messages.skip(1)));
        lemma_frames_round_trip(frames.skip(1), messages.skip(1));
        assert(seq![frames[0]] + frames.skip(1) =~= frames);
    } else {
        assert(frames =~= Seq::<Seq<u8>>::empty());
    }
}

/// The sequence of frames ends where the session ends or breaks: what was
/// written before is read, one frame for each, and nothing that comes
/// after.
pub proof fn lemma_frames_end_with_session(
    frames: Seq<Seq<u8>>,
    messages: Seq<Message>,
    end: SessionEventView,
    rest: Seq<SessionEventView>,
)
    requires
        submitted_for(messages, frames),
        end.ends_frames(),
    ensures
        frames_read(SessionState::Open, arrivals(messages) + seq![end] + rest) == frames,
    decreases frames.len(),
{
    let events = arrivals(messages) + seq![end] + rest;
    if frames.len() > 0 {
        assert(carries(messages[0], frames[0]));
        assert(events[0] == arrivals(messages)[0]);
        assert(submitted_for(messages.skip(1), frames.skip(1))) by {
            assert forall|i: int| 0 <= i < frames.skip(1).len() implies carries(
                #[trigger] messages.skip(1)[i],
                frames.skip(1)[i],
            ) by {
                assert(carries(messages[i + 1], frames[i + 1]));
            }
        }
        assert(events.skip(1) =~= arrivals(messages.skip(1)) + seq![end] + rest);
        lemma_frames_end_with_session(frames.skip(1), messages.skip(1), end, rest);
        assert(seq![frames[0]] + frames.skip(1) =~= frames);
    } else {
        assert(events[0] == end);
        assert(frames =~= Seq::<Seq<u8>>::empty());
    }
}

/// Pings and pongs are invisible in the sequence of frames.
pub proof fn lemma_control_messages_are_skipped(
    state: SessionState,
    control: SessionEventView,
    events: Seq<SessionEventView>,
)
    requires
        control.is_control(),
    ensures
        frames_read(state, seq![control] + events) == frames_read(state, events),
{
    let all = seq![control] + events;
    assert(all[0] == control);
    assert(all.skip(1) =~= events);
    if state != SessionState::Open {
        if events.len() > 0 {
            lemma_end_is_final(state, events[0]);
        }
    }
}

/// A session that is no longer open stays as it is, and every read on it
/// fails with the error of its state.
pub proof fn lemma_end_is_final(state: SessionState, event: SessionEventView)
    requires
        state != SessionState::Open,
    ensures
        state.after(event) == state,
        state.refusal() is Some,
        state.read(event) == Err::<Option<Seq<u8>>, TransportError>(state.refusal()->Some_0),
{
}

/// The error of the operation that met a fault on an open session is the
/// error of every operation after it.
pub proof fn lemma_fault_decides(fault: SessionFault)
    ensures
        SessionState::of_fault(fault).refusal() == Some(TransportError::of_fault(fault)),
        SessionState::Open.fault_error(fault) == TransportError::of_fault(fault),
        SessionState::Open.after_fault(fault) == SessionState::of_fault(fault),
{
}

} // verus!
