//! The session state machine: a pure reducer from the session state and one
//! event to the next state and the effect that the caller must carry out.

use vstd::prelude::*;
use crate::packets::{decode, encode, from_json, to_json, DecodeError, PacketModel, PacketType};

verus! {

/// The chat line shown when the connection cannot be set up or fails.
pub const CONNECT_FAILED: &'static str = "Failed to connect to servers";

/// What the transport reports about the connection.
#[derive(Debug, Clone, Copy, PartialEq, Eq, Structural)]
pub enum TransportStatus {
    Opened,
    Closed,
    Error,
}

/// An event that the session reacts to. `H` is the connection handle.
pub enum Event<H> {
    /// The user asks to connect.
    Connect,
    /// The connection requested by `Connect` was set up; here is its handle.
    Opened(H),
    /// The connection requested by `Connect` could not be set up.
    OpenFailed,
    /// The transport reports that the connection closed.
    Disconnected,
    /// The transport reports that the connection is up.
    Connected,
    /// A text frame arrived.
    MessageReceived(String),
    /// The transport could not deliver a frame; the text describes why.
    ReceiveFailed(String),
    /// The user asks to send the pending input.
    SendMessage,
    /// The user edited the pending input.
    InputChanged(String),
    /// A line to show in the chat history.
    Error(String),
}

pub enum EventModel<H> {
    Connect,
    Opened(H),
    OpenFailed,
    Disconnected,
    Connected,
    MessageReceived(Seq<char>),
    ReceiveFailed(Seq<char>),
    SendMessage,
    InputChanged(Seq<char>),
    Error(Seq<char>),
}

impl<H> View for Event<H> {
    type V = EventModel<H>;

    open spec fn view(&self) -> EventModel<H> {
        match self {
            Event::Connect => EventModel::Connect,
            Event::Opened(h) => EventModel::Opened(*h),
            Event::OpenFailed => EventModel::OpenFailed,
            Event::Disconnected => EventModel::Disconnected,
            Event::Connected => EventModel::Connected,
            Event::MessageReceived(t) => EventModel::MessageReceived(t@),
            Event::ReceiveFailed(t) => EventModel::ReceiveFailed(t@),
            Event::SendMessage => EventModel::SendMessage,
            Event::InputChanged(t) => EventModel::InputChanged(t@),
            Event::Error(t) => EventModel::Error(t@),
        }
    }
}

/// What the caller must do after an event.
#[derive(Debug)]
pub enum Effect {
    Nothing,
    /// Open a connection to the server and report the outcome with
    /// `Opened` or `OpenFailed`.
    OpenConnection,
    /// Send this text frame over the live connection.
    SendFrame(String),
    /// Log that the transport failed to deliver a frame.
    LogReceiveError(String),
    /// Log that an incoming frame was not a packet.
    LogDecodeError(DecodeError),
}

pub enum EffectModel {
    Nothing,
    OpenConnection,
    SendFrame(Seq<char>),
    LogReceiveError(Seq<char>),
    LogDecodeError(DecodeError),
}

impl View for Effect {
    type V = EffectModel;

    open spec fn view(&self) -> EffectModel {
        match self {
            Effect::Nothing => EffectModel::Nothing,
            Effect::OpenConnection => EffectModel::OpenConnection,
            Effect::SendFrame(t) => EffectModel::SendFrame(t@),
            Effect::LogReceiveError(t) => EffectModel::LogReceiveError(t@),
            Effect::LogDecodeError(e) => EffectModel::LogDecodeError(*e),
        }
    }
}

/// The outcome of one event: whether the view must be drawn again, and the
/// effect to carry out.
#[derive(Debug)]
pub struct Step {
    pub render: bool,
    pub effect: Effect,
}

pub struct StepModel {
    pub render: bool,
    pub effect: EffectModel,
}

impl View for Step {
    type V = StepModel;

    open spec fn view(&self) -> StepModel {
        StepModel { render: self.render, effect: self.effect@ }
    }
}

/// Which screen the view shows.
#[derive(Debug, Clone, Copy, PartialEq, Eq, Structural)]
pub enum Screen {
    /// A control that starts a connection.
    ConnectPrompt,
    /// The chat history, the input box and the send control.
    Chat,
}

/// The state of a chat session.
pub struct Session<H> {
    /// The live connection, present while connected or connecting.
    pub handle: Option<H>,
    pub connected: bool,
    /// The lines shown, oldest first.
    pub chat: Vec<String>,
    /// The text of the message being written.
    pub input: String,
}

pub struct SessionModel<H> {
    pub handle: Option<H>,
    pub connected: bool,
    pub chat: Seq<Seq<char>>,
    pub input: Seq<char>,
}

pub open spec fn lines_view(v: Seq<String>) -> Seq<Seq<char>> {
    v.map_values(|s: String| s@)
}

impl<H> View for Session<H> {
    type V = SessionModel<H>;

    open spec fn view(&self) -> SessionModel<H> {
        SessionModel {
            handle: self.handle,
            connected: self.connected,
            chat: lines_view(self.chat@),
            input: self.input@,
        }
    }
}

/// The chat line that a received packet adds.
pub open spec fn line_of(p: PacketModel) -> Seq<char> {
    match p {
        PacketModel::Message(s) => s,
        PacketModel::Error(_, s) => s,
    }
}

/// The session after an event.
pub open spec fn next_session<H>(s: SessionModel<H>, e: EventModel<H>) -> SessionModel<H> {
    match e {
        EventModel::Connect => s,
        EventModel::Opened(h) => if s.handle is None {
            SessionModel { handle: Some(h), ..s }
        } else {
            s
        },
        EventModel::OpenFailed => SessionModel { chat: s.chat.push(CONNECT_FAILED@), ..s },
        EventModel::Disconnected => SessionModel { handle: None, connected: false, ..s },
        EventModel::Connected => SessionModel { connected: true, ..s },
        EventModel::MessageReceived(t) => match decode(t) {
            Ok(p) => SessionModel { chat: s.chat.push(line_of(p)), ..s },
            Err(_) => s,
        },
        EventModel::ReceiveFailed(_) => s,
        EventModel::SendMessage => if s.handle is Some {
            SessionModel { input: Seq::empty(), ..s }
        } else {
            s
        },
        EventModel::InputChanged(t) => SessionModel { input: t, ..s },
        EventModel::Error(t) => SessionModel { chat: s.chat.push(t), ..s },
    }
}

/// What an event asks of the caller.
pub open spec fn step_of<H>(s: SessionModel<H>, e: EventModel<H>) -> StepModel {
    match e {
        EventModel::Connect => if s.handle is None {
            StepModel { render: true, effect: EffectModel::OpenConnection }
        } else {
            StepModel { render: false, effect: EffectModel::Nothing }
        },
        EventModel::Opened(_) => StepModel { render: true, effect: EffectModel::Nothing },
        EventModel::OpenFailed => StepModel { render: true, effect: EffectModel::Nothing },
        EventModel::Disconnected => StepModel { render: true, effect: EffectModel::Nothing },
        EventModel::Connected => StepModel { render: true, effect: EffectModel::Nothing },
        EventModel::MessageReceived(t) => match decode(t) {
            Ok(_) => StepModel { render: true, effect: EffectModel::Nothing },
            Err(err) => StepModel { render: false, effect: EffectModel::LogDecodeError(err) },
        },
        EventModel::ReceiveFailed(t) => StepModel {
            render: false,
            effect: EffectModel::LogReceiveError(t),
        },
        EventModel::SendMessage => if s.handle is Some {
            StepModel {
                render: true,
                effect: EffectModel::SendFrame(encode(PacketModel::Message(s.input))),
            }
        } else {
            StepModel { render: false, effect: EffectModel::Nothing }
        },
        EventModel::InputChanged(_) => StepModel { render: true, effect: EffectModel::Nothing },
        EventModel::Error(_) => StepModel { render: false, effect: EffectModel::Nothing },
    }
}

/// The event that a transport status report stands for.
pub open spec fn status_event<H>(status: TransportStatus) -> EventModel<H> {
    match status {
        TransportStatus::Closed => EventModel::Disconnected,
        TransportStatus::Error => EventModel::Error(CONNECT_FAILED@),
        TransportStatus::Opened => EventModel::Connected,
    }
}

/// Maps a transport status report to the event it stands for.
pub fn event_for_status<H>(status: TransportStatus) -> (r: Event<H>)
    ensures
        r@ == status_event::<H>(status),
{
    match status {
        TransportStatus::Closed => Event::Disconnected,
        TransportStatus::Error => Event::Error(String::from_str(CONNECT_FAILED)),
        TransportStatus::Opened => Event::Connected,
    }
}

/// Connecting without a live connection asks for one, and the handle that the
/// transport then yields is held; connecting again while a handle is held
/// changes nothing and asks for nothing, and a stray handle does not replace it.
pub proof fn lemma_connect<H>(s: SessionModel<H>, h: H)
    ensures
        s.handle is None ==> step_of(s, EventModel::Connect).effect == EffectModel::OpenConnection
            && next_session(next_session(s, EventModel::Connect), EventModel::Opened(h)).handle
            == Some(h),
        s.handle is Some ==> next_session(s, EventModel::Connect) == s && step_of(
            s,
            EventModel::Connect,
        ).effect == EffectModel::Nothing && next_session(s, EventModel::Opened(h)) == s,
{
}

/// A disconnection clears the handle and the connected flag, whatever the
/// state before.
pub proof fn lemma_disconnect_clears<H>(s: SessionModel<H>)
    ensures
        next_session(s, EventModel::Disconnected).handle is None,
        !next_session(s, EventModel::Disconnected).connected,
{
}

/// A frame that is not a packet leaves the chat history as it was.
pub proof fn lemma_undecodable_frame_ignored<H>(s: SessionModel<H>, t: Seq<char>)
    requires
        decode(t) is Err,
    ensures
        next_session(s, EventModel::MessageReceived(t)).chat == s.chat,
        step_of(s, EventModel::MessageReceived(t)).effect == EffectModel::LogDecodeError(
            decode(t)->Err_0,
        ),
{
}

/// Sending with no live connection keeps the pending input and sends no frame.
pub proof fn lemma_send_without_connection<H>(s: SessionModel<H>)
    requires
        s.handle is None,
    ensures
        next_session(s, EventModel::SendMessage).input == s.input,
        step_of(s, EventModel::SendMessage).effect == EffectModel::Nothing,
{
}

/// Typing a text and sending it over a live connection clears the pending
/// input and sends exactly one frame: the message packet holding that text.
pub proof fn lemma_type_then_send<H>(s: SessionModel<H>, t: Seq<char>)
    requires
        s.handle is Some,
    ensures
        ({
            let typed = next_session(s, EventModel::InputChanged(t));
            &&& next_session(typed, EventModel::SendMessage).input == Seq::<char>::empty()
            &&& step_of(typed, EventModel::SendMessage).effect == EffectModel::SendFrame(
                encode(PacketModel::Message(t)),
            )
        }),
{
}

/// The chat history only grows: every event keeps the earlier lines, in order.
pub proof fn lemma_history_append_only<H>(s: SessionModel<H>, e: EventModel<H>)
    ensures
        s.chat.len() <= next_session(s, e).chat.len(),
        next_session(s, e).chat.subrange(0, s.chat.len() as int) == s.chat,
{
    assert(next_session(s, e).chat.subrange(0, s.chat.len() as int) =~= s.chat);
}

impl<H> Session<H> {
    /// A disconnected session with no history and no pending input.
    pub fn new() -> (r: Self)
        ensures
            r@ == (SessionModel::<H> {
                handle: None,
                connected: false,
                chat: Seq::empty(),
                input: Seq::empty(),
            }),
    {
        let r = Session { handle: None, connected: false, chat: Vec::new(), input: String::new() };
        proof {
            assert(lines_view(r.chat@) =~= Seq::empty());
        }
        r
    }

    /// The screen to show: the chat while connected, else the connect prompt.
    pub fn screen(&self) -> (r: Screen)
        ensures
            r == (if self.connected { Screen::Chat } else { Screen::ConnectPrompt }),
    {
        if self.connected {
            Screen::Chat
        } else {
            Screen::ConnectPrompt
        }
    }

    fn push_line(&mut self, line: String)
        ensures
            final(self)@ == (SessionModel { chat: old(self)@.chat.push(line@), ..old(self)@ }),
    {
        self.chat.push(line);
        proof {
            assert(lines_view(self.chat@) =~= lines_view(old(self).chat@).push(line@));
        }
    }

    /// Applies one event to the session.
    pub fn update(&mut self, event: Event<H>) -> (r: Step)
        ensures
            final(self)@ == next_session(old(self)@, event@),
            r@ == step_of(old(self)@, event@),
    {
        match event {
            Event::Connect => {
                if self.handle.is_none() {
                    Step { render: true, effect: Effect::OpenConnection }
                } else {
                    Step { render: false, effect: Effect::Nothing }
                }
            },
            Event::Opened(h) => {
                if self.handle.is_none() {
                    self.handle = Some(h);
                }
                Step { render: true, effect: Effect::Nothing }
            },
            Event::OpenFailed => {
                self.push_line(String::from_str(CONNECT_FAILED));
                Step { render: true, effect: Effect::Nothing }
            },
            Event::Disconnected => {
                self.handle = None;
                self.connected = false;
                Step { render: true, effect: Effect::Nothing }
            },
            Event::Connected => {
                self.connected = true;
                Step { render: true, effect: Effect::Nothing }
            },
            Event::MessageReceived(text) => {
                match from_json(text.as_str()) {
                    Ok(PacketType::Message(s)) => {
                        self.push_line(s);
                        Step { render: true, effect: Effect::Nothing }
                    },
                    Ok(PacketType::Error(_, s)) => {
                        self.push_line(s);
                        Step { render: true, effect: Effect::Nothing }
                    },
                    Err(err) => Step { render: false, effect: Effect::LogDecodeError(err) },
                }
            },
            Event::ReceiveFailed(why) => Step { render: false, effect: Effect::LogReceiveError(why) },
            Event::SendMessage => {
                if self.handle.is_some() {
                    let frame = to_json(PacketType::Message(self.input.clone()));
                    self.input = String::new();
                    Step { render: true, effect: Effect::SendFrame(frame) }
                } else {
                    Step { render: false, effect: Effect::Nothing }
                }
            },
            Event::InputChanged(text) => {
                self.input = text;
                Step { render: true, effect: Effect::Nothing }
            },
            Event::Error(line) => {
                self.push_line(line);
                Step { render: false, effect: Effect::Nothing }
            },
        }
    }
}

} // verus!
