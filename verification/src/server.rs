//! The session: what the relay does for one connection. A session never
//! waits on a queue itself. It is told what happened, as an [`Event`], and
//! answers with the [`Action`]s to carry out next, in order. Whoever runs
//! it carries them out, stops at the first that fails, and comes back with
//! the answer where the last one was a question.

use crate::channels::{
    actions_view, add_message, add_user, bounded_queue, get_messages, get_user, get_users, lookup, messages_view, remove_user, Action, ActionView, ConnectedUsers, Message, MessageView,
    RelayError, StateRequestView, StateResponse, StateResponseView, User, UserView,
    WebSocketConnection, WebSocketConnectionView, WebSocketReceiver, WebSocketSender,
};
use crate::json::{decimal, decimal_string, envelope, envelope_message, MessageKind};
use vstd::prelude::*;
use vstd::string::*;

verus! {

/// What a session is told by whoever runs it.
pub enum Event {
    /// The connection delivered a message.
    Frame(Message),
    /// Reading from the connection failed.
    ReadError,
    /// The connection has delivered its last message.
    Disconnected,
    /// The actor answered the question that was asked last.
    Response(StateResponse),
    /// An action could not be carried out, because the queue that it was
    /// for is gone, or a question was left without an answer.
    ChannelClosed,
}

/// The mathematical value of an [`Event`].
pub enum EventView {
    Frame(MessageView),
    ReadError,
    Disconnected,
    Response(StateResponseView),
    ChannelClosed,
}

impl View for Event {
    type V = EventView;

    open spec fn view(&self) -> EventView {
        match self {
            Event::Frame(message) => EventView::Frame(message@),
            Event::ReadError => EventView::ReadError,
            Event::Disconnected => EventView::Disconnected,
            Event::Response(response) => EventView::Response(response@),
            Event::ChannelClosed => EventView::ChannelClosed,
        }
    }
}

/// Where a session stands in its life.
#[derive(Clone, Copy, Debug, PartialEq, Eq, Structural)]
pub enum SessionState {
    /// The id is assigned and the registration is on its way.
    Connecting,
    /// Messages from the connection are processed and broadcast.
    Active,
    /// A close message was seen: the session takes itself out of the
    /// registry and tells the others.
    Closing,
    /// Nothing more is processed.
    Closed,
}

/// What the inbound side of a session is doing.
pub enum Phase {
    /// Waiting for the next message from the connection.
    Active,
    /// A text message came in and is in the history: waiting for the
    /// registry snapshot to broadcast this text.
    Broadcasting(String),
    /// A close message came in: waiting for the session's own handle.
    Resolving,
    /// Waiting for the actor to confirm that the session is out of the
    /// registry.
    Removing,
    /// Waiting for the snapshot of the sessions that remain.
    Counting,
    /// Done, in order or not.
    Closed,
}

/// The mathematical value of a [`Phase`].
pub enum PhaseView {
    Active,
    Broadcasting(Seq<char>),
    Resolving,
    Removing,
    Counting,
    Closed,
}

impl View for Phase {
    type V = PhaseView;

    open spec fn view(&self) -> PhaseView {
        match self {
            Phase::Active => PhaseView::Active,
            Phase::Broadcasting(text) => PhaseView::Broadcasting(text@),
            Phase::Resolving => PhaseView::Resolving,
            Phase::Removing => PhaseView::Removing,
            Phase::Counting => PhaseView::Counting,
            Phase::Closed => PhaseView::Closed,
        }
    }
}

/// The actions that push `command` to every session of a snapshot, in the
/// order of the snapshot.
pub open spec fn fan_out(users: Seq<UserView>, command: WebSocketConnectionView) -> Seq<
    ActionView,
> {
    Seq::new(users.len(), |i: int| ActionView::Push(users[i], command))
}

/// The command that delivers an envelope of `kind` with `contents`.
pub open spec fn deliver(kind: MessageKind, contents: Seq<char>) -> WebSocketConnectionView {
    WebSocketConnectionView::SendMessage(envelope(kind, contents))
}

/// What one call of a step function gives: the actions, or why the
/// session has stopped.
pub open spec fn turn_view(turn: Result<Vec<Action>, RelayError>) -> Result<
    Seq<ActionView>,
    RelayError,
> {
    match turn {
        Ok(actions) => Ok(actions_view(actions@)),
        Err(error) => Err(error),
    }
}

/// The inbound side of a session: it reads what the connection delivers
/// and turns it into requests to the actor and pushes to the sessions.
pub struct Session {
    session_id: String,
    phase: Phase,
}

/// The mathematical value of a [`Session`].
pub struct SessionView {
    pub id: Seq<char>,
    pub phase: PhaseView,
}

impl View for Session {
    type V = SessionView;

    closed spec fn view(&self) -> SessionView {
        SessionView { id: self.session_id@, phase: self.phase@ }
    }
}

impl SessionView {
    /// This session, stopped.
    pub open spec fn closed(self) -> SessionView {
        SessionView { phase: PhaseView::Closed, ..self }
    }

    /// This session in another phase.
    pub open spec fn at(self, phase: PhaseView) -> SessionView {
        SessionView { phase, ..self }
    }

    /// The state of the session's life that the phase belongs to.
    pub open spec fn state(self) -> SessionState {
        match self.phase {
            PhaseView::Active | PhaseView::Broadcasting(_) => SessionState::Active,
            PhaseView::Resolving | PhaseView::Removing | PhaseView::Counting => {
                SessionState::Closing
            },
            PhaseView::Closed => SessionState::Closed,
        }
    }

    /// Whether `event` is in turn. The loss of a queue and the end of the
    /// connection can come at any time. What the connection delivers is
    /// in turn while the session waits for it, and an answer of the actor
    /// while the session waits for an answer of that kind. A session that
    /// has stopped takes anything. To tell a session anything else is a
    /// fault of the program that runs it, not an input.
    pub open spec fn expects(self, event: EventView) -> bool {
        match event {
            EventView::ChannelClosed | EventView::Disconnected => true,
            EventView::Frame(_) | EventView::ReadError => self.phase is Active || self.phase
                is Closed,
            EventView::Response(response) => match self.phase {
                PhaseView::Closed => true,
                PhaseView::Active => false,
                PhaseView::Broadcasting(_) | PhaseView::Counting => response is Users,
                PhaseView::Resolving => response is User || response is Absent,
                PhaseView::Removing => response is Done,
            },
        }
    }

    /// What a message from the connection leads to while the session
    /// waits for one.
    pub open spec fn on_frame(self, message: MessageView) -> (SessionView, Result<
        Seq<ActionView>,
        RelayError,
    >) {
        match message {
            MessageView::Text(text) => (
                self.at(PhaseView::Broadcasting(text)),
                Ok(
                    seq![
                        ActionView::Tell(StateRequestView::AddMessage(message)),
                        ActionView::Ask(StateRequestView::GetUsers),
                    ],
                ),
            ),
            MessageView::Close => (
                self.at(PhaseView::Resolving),
                Ok(seq![ActionView::Ask(StateRequestView::GetUser(self.id))]),
            ),
            _ => (self, Ok(seq![ActionView::Unhandled(message)])),
        }
    }

    /// What an answer of the actor leads to in the phase that waits for
    /// it. An answer that is not in turn leads to nothing.
    pub open spec fn on_response(self, response: StateResponseView) -> (SessionView, Result<
        Seq<ActionView>,
        RelayError,
    >) {
        match (self.phase, response) {
            (PhaseView::Broadcasting(text), StateResponseView::Users(users)) => (
                self.at(PhaseView::Active),
                Ok(fan_out(users, deliver(MessageKind::Message, text))),
            ),
            (PhaseView::Resolving, StateResponseView::User(outbound)) => (
                self.at(PhaseView::Removing),
                Ok(
                    seq![
                        ActionView::Push(
                            UserView { id: self.id, outbound },
                            WebSocketConnectionView::Close,
                        ),
                        ActionView::Ask(StateRequestView::RemoveUser(self.id)),
                    ],
                ),
            ),
            (PhaseView::Resolving, StateResponseView::Absent) => (
                self.at(PhaseView::Removing),
                Ok(seq![ActionView::Ask(StateRequestView::RemoveUser(self.id))]),
            ),
            (PhaseView::Removing, StateResponseView::Done) => (
                self.at(PhaseView::Counting),
                Ok(seq![ActionView::Ask(StateRequestView::GetUsers)]),
            ),
            (PhaseView::Counting, StateResponseView::Users(users)) => (
                self.closed(),
                Ok(fan_out(users, deliver(MessageKind::ConnectedUsers, decimal(users.len())))),
            ),
            _ => (self, Ok(Seq::empty())),
        }
    }

    /// The step of the session: the session after `event`, and the actions
    /// that it asks for or the reason why it has stopped.
    ///
    /// A stopped session takes no further part. The loss of a queue stops
    /// the session with an error, the end of the connection stops it
    /// without one. A read error is passed over. An event that is not in
    /// turn, see [`SessionView::expects`], leads to nothing.
    pub open spec fn step(self, event: EventView) -> (SessionView, Result<
        Seq<ActionView>,
        RelayError,
    >) {
        if self.phase is Closed {
            (self, Ok(Seq::empty()))
        } else {
            match event {
                EventView::ChannelClosed => (self.closed(), Err(RelayError::ChannelClosed)),
                EventView::Disconnected => (self.closed(), Ok(Seq::empty())),
                EventView::Response(response) => self.on_response(response),
                EventView::Frame(message) => if self.phase is Active {
                    self.on_frame(message)
                } else {
                    (self, Ok(Seq::empty()))
                },
                EventView::ReadError => (self, Ok(Seq::empty())),
            }
        }
    }
}

/// Pushes one command to every session of a snapshot. The command is
/// given as the outcome of putting an envelope into its wire form: where
/// that failed, nothing is pushed and the failure is handed on.
pub fn deliver_all(users: &ConnectedUsers, message: Result<Message, RelayError>) -> (turn: Result<
    Vec<Action>,
    RelayError,
>)
    ensures
        turn_view(turn) == match message {
            Ok(framed) => Ok(fan_out(users@, WebSocketConnectionView::SendMessage(framed@))),
            Err(error) => Err(error),
        },
{
    match message {
        Ok(framed) => {
            let command = WebSocketConnection::SendMessage(framed);
            let mut actions: Vec<Action> = Vec::with_capacity(users.len());
            let mut i: usize = 0;
            while i < users.len()
                invariant
                    i <= users@.len(),
                    actions.len() == i,
                    forall|j: int|
                        0 <= j < i ==> actions@[j]@ == ActionView::Push(users@[j], command@),
                decreases users@.len() - i,
            {
                actions.push(Action::Push(users.user(i).clone(), command.clone()));
                i = i + 1;
            }
            assert(actions_view(actions@) =~= fan_out(users@, command@));
            Ok(actions)
        },
        Err(error) => Err(error),
    }
}

impl Session {
    /// The inbound side of the session `session_id`, waiting for the first
    /// message.
    pub fn new(session_id: String) -> (session: Session)
        ensures
            session@ == (SessionView { id: session_id@, phase: PhaseView::Active }),
    {
        Session { session_id, phase: Phase::Active }
    }

    /// The id of the session.
    pub fn id(&self) -> (id: &String)
        ensures
            id@ == self@.id,
    {
        &self.session_id
    }

    /// Where the session stands in its life.
    pub fn state(&self) -> (state: SessionState)
        ensures
            state == self@.state(),
    {
        match self.phase {
            Phase::Active => SessionState::Active,
            Phase::Broadcasting(_) => SessionState::Active,
            Phase::Resolving => SessionState::Closing,
            Phase::Removing => SessionState::Closing,
            Phase::Counting => SessionState::Closing,
            Phase::Closed => SessionState::Closed,
        }
    }

    /// Whether `event` is in turn, see [`SessionView::expects`]. Whoever
    /// runs the session asks this before it hands an event to
    /// [`Session::handle`].
    pub fn expects(&self, event: &Event) -> (in_turn: bool)
        ensures
            in_turn == self@.expects(event@),
    {
        match event {
            Event::ChannelClosed => true,
            Event::Disconnected => true,
            Event::Frame(_) => match self.phase {
                Phase::Active => true,
                Phase::Closed => true,
                _ => false,
            },
            Event::ReadError => match self.phase {
                Phase::Active => true,
                Phase::Closed => true,
                _ => false,
            },
            Event::Response(response) => match self.phase {
                Phase::Closed => true,
                Phase::Active => false,
                Phase::Broadcasting(_) => response.is_users(),
                Phase::Counting => response.is_users(),
                Phase::Resolving => response.is_user(),
                Phase::Removing => response.is_done(),
            },
        }
    }

    /// Goes on in `phase` with the actions that a delivery to a snapshot
    /// takes.
    fn deliver(
        &mut self,
        phase: Phase,
        users: &ConnectedUsers,
        message: Result<Message, RelayError>,
    ) -> (turn: Result<Vec<Action>, RelayError>)
        requires
            message is Ok,
        ensures
            final(self)@ == old(self)@.at(phase@),
            turn_view(turn) == Ok::<Seq<ActionView>, RelayError>(
                fan_out(users@, WebSocketConnectionView::SendMessage(message->Ok_0@)),
            ),
    {
        let turn = deliver_all(users, message);
        self.phase = phase;
        turn
    }

    /// What a message from the connection leads to.
    fn frame(&mut self, message: Message) -> (turn: Result<Vec<Action>, RelayError>)
        requires
            old(self)@.phase is Active,
        ensures
            (final(self)@, turn_view(turn)) == old(self)@.on_frame(message@),
    {
        let mut actions: Vec<Action> = Vec::new();
        match message {
            Message::Text(text) => {
                let frame = Message::Text(text.clone());
                actions.push(add_message(&frame));
                actions.push(get_users());
                self.phase = Phase::Broadcasting(text);
            },
            Message::Close => {
                actions.push(get_user(self.session_id.as_str()));
                self.phase = Phase::Resolving;
            },
            other => {
                actions.push(Action::Unhandled(other));
            },
        }
        assert(actions_view(actions@) =~= old(self)@.on_frame(message@).1->Ok_0);
        Ok(actions)
    }

    /// What an answer of the actor leads to.
    fn response(&mut self, response: StateResponse) -> (turn: Result<Vec<Action>, RelayError>)
        requires
            old(self)@.expects(EventView::Response(response@)),
            !(old(self)@.phase is Closed),
        ensures
            (final(self)@, turn_view(turn)) == old(self)@.on_response(response@),
    {
        let mut actions: Vec<Action> = Vec::new();
        match &self.phase {
            Phase::Broadcasting(text) => {
                let contents = text.clone();
                let users = response.into_users();
                let message = envelope_message(MessageKind::Message, contents);
                return self.deliver(Phase::Active, &users, message);
            },
            Phase::Counting => {
                let users = response.into_users();
                let count = decimal_string(users.len());
                let message = envelope_message(MessageKind::ConnectedUsers, count);
                return self.deliver(Phase::Closed, &users, message);
            },
            Phase::Resolving => {
                match response.into_user() {
                    Some(outbound) => {
                        let own = User { id: self.session_id.clone(), outbound };
                        actions.push(Action::Push(own, WebSocketConnection::Close));
                    },
                    None => {},
                }
                actions.push(remove_user(self.session_id.as_str()));
                self.phase = Phase::Removing;
            },
            Phase::Removing => {
                actions.push(get_users());
                self.phase = Phase::Counting;
            },
            _ => {},
        }
        assert(actions_view(actions@) =~= old(self)@.on_response(response@).1->Ok_0);
        Ok(actions)
    }

    /// The step of the inbound side: takes what happened and says what to
    /// do next, see [`SessionView::step`]. The event has to be in turn:
    /// an answer of the wrong kind, or a message while an answer is
    /// awaited, shows a fault in the program that runs the session, and
    /// that program stops on it before it comes here.
    pub fn handle(&mut self, event: Event) -> (turn: Result<Vec<Action>, RelayError>)
        requires
            old(self)@.expects(event@),
        ensures
            (final(self)@, turn_view(turn)) == old(self)@.step(event@),
    {
        let waiting = match self.phase {
            Phase::Active => true,
            _ => false,
        };
        let closed = match self.phase {
            Phase::Closed => true,
            _ => false,
        };
        let actions: Vec<Action> = Vec::new();
        assert(actions_view(actions@) =~= Seq::<ActionView>::empty());
        if closed {
            return Ok(actions);
        }
        match event {
            Event::ChannelClosed => {
                self.phase = Phase::Closed;
                Err(RelayError::ChannelClosed)
            },
            Event::Disconnected => {
                self.phase = Phase::Closed;
                Ok(actions)
            },
            Event::Response(response) => self.response(response),
            Event::Frame(message) => if waiting {
                self.frame(message)
            } else {
                Ok(actions)
            },
            Event::ReadError => Ok(actions),
        }
    }
}

/// The texts of a history: the contents of each message that can be read
/// as text, in order. A message that cannot is left out.
pub open spec fn texts(history: Seq<MessageView>) -> Seq<Seq<char>>
    decreases history.len(),
{
    if history.len() == 0 {
        Seq::empty()
    } else {
        match history.last().contents() {
            Some(text) => texts(history.drop_last()).push(text),
            None => texts(history.drop_last()),
        }
    }
}

/// The actions that replay a history to one session: a `message` envelope
/// for each text, oldest first.
pub open spec fn replay(me: UserView, history: Seq<MessageView>) -> Seq<ActionView> {
    Seq::new(
        texts(history).len(),
        |i: int| ActionView::Push(me, deliver(MessageKind::Message, texts(history)[i])),
    )
}

/// The actions that greet the session `id`, given the registry and the
/// history as they were when it had joined: its id to the session itself,
/// then the number of sessions to every session, then the history to the
/// session itself. A session that the registry does not hold is not
/// greeted.
pub open spec fn greeting_plan(
    id: Seq<char>,
    users: Seq<UserView>,
    history: Seq<MessageView>,
) -> Seq<ActionView> {
    match lookup(users, id) {
        Some(outbound) => {
            let me = UserView { id, outbound };
            seq![ActionView::Push(me, deliver(MessageKind::Uuid, id))] + fan_out(
                users,
                deliver(MessageKind::ConnectedUsers, decimal(users.len())),
            ) + replay(me, history)
        },
        None => Seq::empty(),
    }
}

/// Pushes one command to one session. The command is given as the outcome
/// of putting an envelope into its wire form: where that failed, there is
/// no action and the failure is handed on.
pub fn deliver_to(user: &User, message: Result<Message, RelayError>) -> (action: Result<
    Action,
    RelayError,
>)
    ensures
        match message {
            Ok(framed) => action matches Ok(push) && push@ == ActionView::Push(
                user@,
                WebSocketConnectionView::SendMessage(framed@),
            ),
            Err(error) => action matches Err(handed) && handed == error,
        },
{
    match message {
        Ok(framed) => Ok(Action::Push(user.clone(), WebSocketConnection::SendMessage(framed))),
        Err(error) => Err(error),
    }
}

/// The actions that greet the session `uuid`, see [`greeting_plan`].
fn greet(uuid: &String, users: &ConnectedUsers, history: &Vec<Message>) -> (turn: Result<
    Vec<Action>,
    RelayError,
>)
    ensures
        turn is Ok,
        turn matches Ok(actions) ==> actions_view(actions@) == greeting_plan(
            uuid@,
            users@,
            messages_view(history@),
        ),
{
    let outbound = match users.get(uuid.as_str()) {
        Some(outbound) => outbound.clone(),
        None => {
            let actions: Vec<Action> = Vec::new();
            assert(actions_view(actions@) =~= Seq::<ActionView>::empty());
            return Ok(actions);
        },
    };
    let me = User { id: uuid.clone(), outbound };
    let mut actions: Vec<Action> = Vec::new();

    let session_uuid = envelope_message(MessageKind::Uuid, uuid.clone());
    match deliver_to(&me, session_uuid) {
        Ok(push) => actions.push(push),
        Err(error) => {
            return Err(error);
        },
    }

    let count = envelope_message(MessageKind::ConnectedUsers, decimal_string(users.len()));
    match deliver_all(users, count) {
        Ok(mut pushes) => actions.append(&mut pushes),
        Err(error) => {
            return Err(error);
        },
    }
    let ghost head = seq![ActionView::Push(me@, deliver(MessageKind::Uuid, uuid@))] + fan_out(
        users@,
        deliver(MessageKind::ConnectedUsers, decimal(users@.len())),
    );
    assert(actions_view(actions@) =~= head);

    let ghost past = messages_view(history@);
    let mut i: usize = 0;
    while i < history.len()
        invariant
            i <= history@.len(),
            past == messages_view(history@),
            actions_view(actions@) == head + replay(me@, past.take(i as int)),
        decreases history@.len() - i,
    {
        let ghost before = actions_view(actions@);
        let ghost read = texts(past.take(i as int));
        proof {
            assert(past.take(i + 1).drop_last() =~= past.take(i as int));
            assert(past.take(i + 1).last() == history@[i as int]@);
        }
        match history[i].contents() {
            Some(text) => {
                let older_message = envelope_message(MessageKind::Message, text);
                match deliver_to(&me, older_message) {
                    Ok(push) => {
                        actions.push(push);
                        proof {
                            assert(texts(past.take(i + 1)) == read.push(text@));
                            assert(actions_view(actions@) =~= before.push(push@));
                            assert(replay(me@, past.take(i + 1)) =~= replay(
                                me@,
                                past.take(i as int),
                            ).push(push@));
                        }
                    },
                    Err(error) => {
                        return Err(error);
                    },
                }
            },
            None => {
                assert(texts(past.take(i + 1)) == read);
                assert(replay(me@, past.take(i + 1)) =~= replay(me@, past.take(i as int)));
            },
        }
        assert(actions_view(actions@) =~= head + replay(me@, past.take(i + 1)));
        i = i + 1;
    }
    assert(past.take(i as int) =~= past);
    Ok(actions)
}

/// What the greeting of a session is doing.
pub enum GreetingPhase {
    /// Waiting for the actor to confirm the registration.
    Registering,
    /// Waiting for the snapshot of the registry.
    Counting,
    /// Holding the snapshot of the registry and waiting for that of the
    /// history.
    Replaying(ConnectedUsers),
    /// The greeting has been handed out.
    Done,
    /// The greeting was given up.
    Failed,
}

/// The mathematical value of a [`GreetingPhase`].
pub enum GreetingPhaseView {
    Registering,
    Counting,
    Replaying(Seq<UserView>),
    Done,
    Failed,
}

impl View for GreetingPhase {
    type V = GreetingPhaseView;

    open spec fn view(&self) -> GreetingPhaseView {
        match self {
            GreetingPhase::Registering => GreetingPhaseView::Registering,
            GreetingPhase::Counting => GreetingPhaseView::Counting,
            GreetingPhase::Replaying(users) => GreetingPhaseView::Replaying(users@),
            GreetingPhase::Done => GreetingPhaseView::Done,
            GreetingPhase::Failed => GreetingPhaseView::Failed,
        }
    }
}

/// The greeting of a new session: it registers the session with the actor
/// and then tells the session who it is, tells everybody how many they
/// are, and replays the history to the session.
pub struct Greeting {
    uuid: String,
    phase: GreetingPhase,
}

/// The mathematical value of a [`Greeting`].
pub struct GreetingView {
    pub id: Seq<char>,
    pub phase: GreetingPhaseView,
}

impl View for Greeting {
    type V = GreetingView;

    closed spec fn view(&self) -> GreetingView {
        GreetingView { id: self.uuid@, phase: self.phase@ }
    }
}

impl GreetingView {
    /// The greeting of the session `id` at its start, and the action that
    /// it starts with: the registration.
    pub open spec fn start(id: Seq<char>, outbound: WebSocketSender) -> (GreetingView, Seq<
        ActionView,
    >) {
        (
            GreetingView { id, phase: GreetingPhaseView::Registering },
            seq![ActionView::Ask(StateRequestView::AddUser(id, outbound))],
        )
    }

    /// This greeting in another phase.
    pub open spec fn at(self, phase: GreetingPhaseView) -> GreetingView {
        GreetingView { phase, ..self }
    }

    /// Whether the greeting has come to its end, one way or the other.
    pub open spec fn over(self) -> bool {
        self.phase is Done || self.phase is Failed
    }

    /// The state of the session's life as far as the greeting shows it.
    pub open spec fn state(self) -> SessionState {
        match self.phase {
            GreetingPhaseView::Done => SessionState::Active,
            GreetingPhaseView::Failed => SessionState::Closed,
            _ => SessionState::Connecting,
        }
    }

    /// Whether `event` is in turn. The loss of a queue can come at any
    /// time, and an answer of the actor is in turn while the greeting waits
    /// for an answer of that kind. A greeting that is over takes anything.
    /// To tell a greeting anything else is a fault of the program that runs
    /// it, not an input.
    pub open spec fn expects(self, event: EventView) -> bool {
        self.over() || match event {
            EventView::ChannelClosed => true,
            EventView::Response(response) => match self.phase {
                GreetingPhaseView::Registering => response is Done,
                GreetingPhaseView::Counting => response is Users,
                GreetingPhaseView::Replaying(_) => response is Messages,
                _ => true,
            },
            _ => false,
        }
    }

    /// What an answer of the actor leads to in the phase that waits for
    /// it. An answer that is not in turn leads to nothing.
    pub open spec fn on_response(self, response: StateResponseView) -> (GreetingView, Result<
        Seq<ActionView>,
        RelayError,
    >) {
        match (self.phase, response) {
            (GreetingPhaseView::Registering, StateResponseView::Done) => (
                self.at(GreetingPhaseView::Counting),
                Ok(seq![ActionView::Ask(StateRequestView::GetUsers)]),
            ),
            (GreetingPhaseView::Counting, StateResponseView::Users(users)) => (
                self.at(GreetingPhaseView::Replaying(users)),
                Ok(seq![ActionView::Ask(StateRequestView::GetMessages)]),
            ),
            (GreetingPhaseView::Replaying(users), StateResponseView::Messages(history)) => (
                self.at(GreetingPhaseView::Done),
                Ok(greeting_plan(self.id, users, history)),
            ),
            _ => (self, Ok(Seq::empty())),
        }
    }

    /// The step of the greeting: the greeting after `event`, and the
    /// actions that it asks for or the reason why it was given up.
    ///
    /// A greeting that is over takes no further part. The loss of a queue
    /// ends it with an error. An event that is not in turn, see
    /// [`GreetingView::expects`], leads to nothing.
    pub open spec fn step(self, event: EventView) -> (GreetingView, Result<
        Seq<ActionView>,
        RelayError,
    >) {
        if self.over() {
            (self, Ok(Seq::empty()))
        } else {
            match event {
                EventView::ChannelClosed => (
                    self.at(GreetingPhaseView::Failed),
                    Err(RelayError::ChannelClosed),
                ),
                EventView::Response(response) => self.on_response(response),
                _ => (self, Ok(Seq::empty())),
            }
        }
    }
}

impl Greeting {
    /// The greeting of the session `uuid`, together with the action that
    /// starts it: the registration of the session with its outbound handle.
    pub fn new(uuid: &str, websocket_sender: WebSocketSender) -> (start: (Greeting, Vec<Action>))
        ensures
            (start.0@, actions_view(start.1@)) == GreetingView::start(uuid@, websocket_sender),
    {
        let mut actions: Vec<Action> = Vec::new();
        actions.push(add_user(String::from_str(uuid), websocket_sender));
        let greeting = Greeting { uuid: String::from_str(uuid), phase: GreetingPhase::Registering };
        assert(actions_view(actions@) =~= GreetingView::start(uuid@, websocket_sender).1);
        (greeting, actions)
    }

    /// Where the session stands in its life, as far as the greeting shows.
    pub fn state(&self) -> (state: SessionState)
        ensures
            state == self@.state(),
    {
        match self.phase {
            GreetingPhase::Done => SessionState::Active,
            GreetingPhase::Failed => SessionState::Closed,
            _ => SessionState::Connecting,
        }
    }

    /// Whether `event` is in turn, see [`GreetingView::expects`]. Whoever
    /// runs the greeting asks this before it hands an event to
    /// [`Greeting::initial_messages`].
    pub fn expects(&self, event: &Event) -> (in_turn: bool)
        ensures
            in_turn == self@.expects(event@),
    {
        match self.phase {
            GreetingPhase::Done => true,
            GreetingPhase::Failed => true,
            GreetingPhase::Registering => match event {
                Event::ChannelClosed => true,
                Event::Response(response) => response.is_done(),
                _ => false,
            },
            GreetingPhase::Counting => match event {
                Event::ChannelClosed => true,
                Event::Response(response) => response.is_users(),
                _ => false,
            },
            GreetingPhase::Replaying(_) => match event {
                Event::ChannelClosed => true,
                Event::Response(response) => response.is_messages(),
                _ => false,
            },
        }
    }

    /// What an answer of the actor leads to.
    fn response(&mut self, response: StateResponse) -> (turn: Result<Vec<Action>, RelayError>)
        requires
            old(self)@.expects(EventView::Response(response@)),
            !old(self)@.over(),
        ensures
            (final(self)@, turn_view(turn)) == old(self)@.on_response(response@),
    {
        let mut phase = GreetingPhase::Failed;
        core::mem::swap(&mut self.phase, &mut phase);
        let mut actions: Vec<Action> = Vec::new();
        match phase {
            GreetingPhase::Registering => {
                actions.push(get_users());
                self.phase = GreetingPhase::Counting;
            },
            GreetingPhase::Counting => {
                actions.push(get_messages());
                self.phase = GreetingPhase::Replaying(response.into_users());
            },
            GreetingPhase::Replaying(users) => {
                let history = response.into_messages();
                self.phase = GreetingPhase::Done;
                return greet(&self.uuid, &users, &history);
            },
            other => {
                self.phase = other;
            },
        }
        assert(actions_view(actions@) =~= old(self)@.on_response(response@).1->Ok_0);
        Ok(actions)
    }

    /// The step of the greeting: takes what happened and says what to do
    /// next, see [`GreetingView::step`]. The event has to be in turn: an
    /// answer of the wrong kind shows a fault in the program that runs the
    /// greeting, and that program stops on it before it comes here.
    pub fn initial_messages(&mut self, event: Event) -> (turn: Result<Vec<Action>, RelayError>)
        requires
            old(self)@.expects(event@),
        ensures
            (final(self)@, turn_view(turn)) == old(self)@.step(event@),
    {
        let over = match self.phase {
            GreetingPhase::Done => true,
            GreetingPhase::Failed => true,
            _ => false,
        };
        let actions: Vec<Action> = Vec::new();
        assert(actions_view(actions@) =~= Seq::<ActionView>::empty());
        if over {
            return Ok(actions);
        }
        match event {
            Event::ChannelClosed => {
                self.phase = GreetingPhase::Failed;
                Err(RelayError::ChannelClosed)
            },
            Event::Response(response) => self.response(response),
            _ => Ok(actions),
        }
    }
}

/// What the outbound pump does with the sending side of the connection.
pub enum SinkAction {
    /// Write this message and go on with the next command.
    Send(Message),
    /// Close the sending side; the pump ends.
    Close,
}

/// The mathematical value of a [`SinkAction`].
pub enum SinkActionView {
    Send(MessageView),
    Close,
}

impl View for SinkAction {
    type V = SinkActionView;

    open spec fn view(&self) -> SinkActionView {
        match self {
            SinkAction::Send(message) => SinkActionView::Send(message@),
            SinkAction::Close => SinkActionView::Close,
        }
    }
}

impl SinkAction {
    /// Whether the pump ends with this.
    pub fn is_last(&self) -> (last: bool)
        ensures
            last == (self@ is Close),
    {
        match self {
            SinkAction::Close => true,
            _ => false,
        }
    }
}

/// The step of the outbound pump: what to do with the sending side of the
/// connection for a command taken from the session's outbound queue.
pub fn incoming_connection(incoming: WebSocketConnection) -> (step: SinkAction)
    ensures
        step@ == match incoming@ {
            WebSocketConnectionView::SendMessage(message) => SinkActionView::Send(message),
            WebSocketConnectionView::Close => SinkActionView::Close,
        },
{
    match incoming {
        WebSocketConnection::SendMessage(message) => SinkAction::Send(message),
        WebSocketConnection::Close => SinkAction::Close,
    }
}

/// The number of commands that a session's outbound queue holds before a
/// push to it has to wait.
pub const OUTBOUND_CAPACITY: usize = 16;

/// Whether a character is a hexadecimal digit in lower case.
pub open spec fn is_lower_hex(c: char) -> bool {
    0x30 <= c as u32 <= 0x39 || 0x61 <= c as u32 <= 0x66
}

/// The shape of a session id: a UUID of version 4 in its hyphenated
/// form, five groups of hexadecimal digits in lower case, the first digit
/// of the third group the version and the first digit of the fourth one
/// that the variant allows.
pub open spec fn is_session_id(id: Seq<char>) -> bool {
    &&& id.len() == 36
    &&& id[8] == '-'
    &&& id[13] == '-'
    &&& id[18] == '-'
    &&& id[23] == '-'
    &&& forall|i: int|
        0 <= i < 36 && i != 8 && i != 13 && i != 18 && i != 23 ==> is_lower_hex(#[trigger] id[i])
    &&& id[14] == '4'
    &&& (id[19] == '8' || id[19] == '9' || id[19] == 'a' || id[19] == 'b')
}

/// `Uuid::new_v4` of the uuid crate, written out with `to_string`. The
/// value is random; every outcome is 36 characters long, with hyphens
/// after 8, 13, 18 and 23 characters and lower-case hexadecimal digits
/// elsewhere. `new_v4` sets the version, 4, which is the first digit of
/// the third group, and the variant, which leaves 8, 9, a or b for the
/// first digit of the fourth.
#[verifier::external_body]
fn random_uuid() -> (id: String)
    ensures
        is_session_id(id@),
{
    uuid::Uuid::new_v4().to_string()
}

/// A fresh session id, twice: one for the inbound side of the session and
/// one for its greeting.
pub fn create_account() -> (ids: (String, String))
    ensures
        ids.0@ == ids.1@,
        is_session_id(ids.0@),
{
    let session_id = random_uuid();
    let uuid = session_id.clone();

    (session_id, uuid)
}

/// All that a new connection starts with.
pub struct Connection {
    /// The inbound side of the session, waiting for the first message.
    pub session: Session,
    /// The greeting of the session.
    pub greeting: Greeting,
    /// The actions that start the greeting.
    pub register: Vec<Action>,
    /// The end of the session's outbound queue that the pump reads.
    pub outbound: WebSocketReceiver,
}

/// Sets a session up for a connection that has just been accepted: a
/// fresh id, a fresh outbound queue of [`OUTBOUND_CAPACITY`], the inbound
/// side, and the greeting, which starts by registering the id with the
/// sending end of the queue.
pub fn connect() -> (connection: Connection)
    ensures
        is_session_id(connection.session@.id),
        connection.session@.phase is Active,
        connection.greeting@.id == connection.session@.id,
        connection.greeting@.phase is Registering,
        exists|sender: WebSocketSender|
            actions_view(connection.register@) == seq![
                ActionView::Ask(StateRequestView::AddUser(connection.session@.id, sender)),
            ],
{
    let (sink_sender, sink_receiver) = bounded_queue(OUTBOUND_CAPACITY);
    let (session_id, uuid) = create_account();
    let (greeting, register) = Greeting::new(uuid.as_str(), sink_sender);
    let session = Session::new(session_id);
    Connection { session, greeting, register, outbound: sink_receiver }
}

} // verus!
