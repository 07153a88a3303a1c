//! The values that travel between the parts of the relay: websocket
//! messages, the commands for a session's outbound queue, the session
//! registry, and the requests and responses of the state actor.

use vstd::prelude::*;
use vstd::string::*;
use vstd::utf8::*;

verus! {

/// The sending half of tokio's bounded channel. The relay never looks
/// inside one: it stores them, copies them and hands them out.
#[verifier::external_type_specification]
#[verifier::external_body]
#[verifier::reject_recursive_types(T)]
pub struct ExSender<T>(tokio::sync::mpsc::Sender<T>);

/// `Clone` of tokio's `Sender`. A sender stands for the queue that it
/// feeds, and tokio documents that a clone sends to the same channel as the
/// sender it was made from: so the contracts count the two as one value.
pub assume_specification<T>[ <tokio::sync::mpsc::Sender<T> as Clone>::clone ](
    sender: &tokio::sync::mpsc::Sender<T>,
) -> (copy: tokio::sync::mpsc::Sender<T>)
    ensures
        copy == *sender,
;

/// The receiving half of tokio's bounded channel. The relay makes it and
/// hands it to whoever writes to the connection.
#[verifier::external_type_specification]
#[verifier::external_body]
#[verifier::reject_recursive_types(T)]
pub struct ExReceiver<T>(tokio::sync::mpsc::Receiver<T>);

/// The handle to a session's bounded outbound queue.
pub type WebSocketSender = tokio::sync::mpsc::Sender<WebSocketConnection>;

/// The end of a session's outbound queue from which the commands are taken.
pub type WebSocketReceiver = tokio::sync::mpsc::Receiver<WebSocketConnection>;

/// The largest capacity that a bounded queue can be made with.
pub const MAX_CAPACITY: usize = 0x1FFF_FFFF;

/// `tokio::sync::mpsc::channel`: a new bounded queue, as its two ends.
/// tokio panics on a capacity of zero and on one above its limit of
/// permits, which is `usize::MAX >> 3`.
#[verifier::external_body]
pub(crate) fn bounded_queue(capacity: usize) -> (ends: (WebSocketSender, WebSocketReceiver))
    requires
        0 < capacity <= MAX_CAPACITY,
{
    tokio::sync::mpsc::channel(capacity)
}

/// What can go wrong for a session, a greeting or an envelope.
#[derive(Clone, Copy, Debug, PartialEq, Eq, Structural)]
pub enum RelayError {
    /// The queue of the actor or of a session is gone.
    ChannelClosed,
    /// A field of an envelope could not be put into its wire form.
    Encoding,
}

/// A websocket message as the relay sees it: its kind and its payload.
#[derive(Debug)]
pub enum Message {
    Text(String),
    Binary(Vec<u8>),
    Ping(Vec<u8>),
    Pong(Vec<u8>),
    Close,
}

/// The mathematical value of a [`Message`].
pub enum MessageView {
    Text(Seq<char>),
    Binary(Seq<u8>),
    Ping(Seq<u8>),
    Pong(Seq<u8>),
    Close,
}

impl View for Message {
    type V = MessageView;

    open spec fn view(&self) -> MessageView {
        match self {
            Message::Text(text) => MessageView::Text(text@),
            Message::Binary(bytes) => MessageView::Binary(bytes@),
            Message::Ping(bytes) => MessageView::Ping(bytes@),
            Message::Pong(bytes) => MessageView::Pong(bytes@),
            Message::Close => MessageView::Close,
        }
    }
}

impl MessageView {
    /// The payload read as text: the text of a text message, the decoded
    /// bytes of a binary, ping or pong message where they are UTF-8, and
    /// nothing for a close message. `None` where the bytes are no UTF-8.
    pub open spec fn contents(self) -> Option<Seq<char>> {
        match self {
            MessageView::Text(text) => Some(text),
            MessageView::Binary(bytes) | MessageView::Ping(bytes) | MessageView::Pong(bytes) => {
                if valid_utf8(bytes) {
                    Some(decode_utf8(bytes))
                } else {
                    None
                }
            },
            MessageView::Close => Some(Seq::empty()),
        }
    }
}

/// `String::from_utf8` of std: the string that the bytes encode, if they
/// are valid UTF-8, and nothing otherwise.
#[verifier::external_body]
fn string_from_utf8(bytes: Vec<u8>) -> (text: Option<String>)
    ensures
        text is Some <==> valid_utf8(bytes@),
        text matches Some(decoded) ==> decoded@ == decode_utf8(bytes@),
{
    match String::from_utf8(bytes) {
        Ok(decoded) => Some(decoded),
        Err(_) => None,
    }
}

impl Clone for Message {
    fn clone(&self) -> (copy: Self)
        ensures
            copy@ == self@,
    {
        match self {
            Message::Text(text) => Message::Text(text.clone()),
            Message::Binary(bytes) => Message::Binary(bytes.clone()),
            Message::Ping(bytes) => Message::Ping(bytes.clone()),
            Message::Pong(bytes) => Message::Pong(bytes.clone()),
            Message::Close => Message::Close,
        }
    }
}

impl Message {
    /// A text message that holds `text`.
    pub fn text(text: &str) -> (message: Message)
        ensures
            message@ == MessageView::Text(text@),
    {
        Message::Text(String::from_str(text))
    }

    /// A close message.
    pub fn close() -> (message: Message)
        ensures
            message@ == MessageView::Close,
    {
        Message::Close
    }

    pub fn is_text(&self) -> (yes: bool)
        ensures
            yes == (self@ is Text),
    {
        match self {
            Message::Text(_) => true,
            _ => false,
        }
    }

    pub fn is_binary(&self) -> (yes: bool)
        ensures
            yes == (self@ is Binary),
    {
        match self {
            Message::Binary(_) => true,
            _ => false,
        }
    }

    pub fn is_ping(&self) -> (yes: bool)
        ensures
            yes == (self@ is Ping),
    {
        match self {
            Message::Ping(_) => true,
            _ => false,
        }
    }

    pub fn is_pong(&self) -> (yes: bool)
        ensures
            yes == (self@ is Pong),
    {
        match self {
            Message::Pong(_) => true,
            _ => false,
        }
    }

    pub fn is_close(&self) -> (yes: bool)
        ensures
            yes == (self@ is Close),
    {
        match self {
            Message::Close => true,
            _ => false,
        }
    }

    /// The text of a text message; no other message has one.
    pub fn to_str(&self) -> (text: Option<&str>)
        ensures
            text is Some <==> self@ is Text,
            text matches Some(t) ==> self@ == MessageView::Text(t@),
    {
        match self {
            Message::Text(text) => Some(text.as_str()),
            _ => None,
        }
    }

    /// The payload read as text, see [`MessageView::contents`].
    pub fn contents(&self) -> (text: Option<String>)
        ensures
            text is Some <==> self@.contents() is Some,
            text matches Some(t) ==> Some(t@) == self@.contents(),
    {
        match self {
            Message::Text(text) => Some(text.clone()),
            Message::Binary(bytes) => string_from_utf8(bytes.clone()),
            Message::Ping(bytes) => string_from_utf8(bytes.clone()),
            Message::Pong(bytes) => string_from_utf8(bytes.clone()),
            Message::Close => Some(String::new()),
        }
    }
}

/// The view of a history: the value of each message, in order.
pub open spec fn messages_view(messages: Seq<Message>) -> Seq<MessageView> {
    Seq::new(messages.len(), |i: int| messages[i]@)
}

/// Copies a history, message by message.
pub fn clone_messages(messages: &Vec<Message>) -> (copy: Vec<Message>)
    ensures
        messages_view(copy@) == messages_view(messages@),
{
    let mut copy: Vec<Message> = Vec::with_capacity(messages.len());
    let mut i: usize = 0;
    while i < messages.len()
        invariant
            i <= messages.len(),
            copy.len() == i,
            forall|j: int| 0 <= j < i ==> copy@[j]@ == messages@[j]@,
        decreases messages.len() - i,
    {
        copy.push(messages[i].clone());
        i = i + 1;
    }
    assert(messages_view(copy@) =~= messages_view(messages@));
    copy
}

/// A command for a session's outbound queue.
#[derive(Debug)]
pub enum WebSocketConnection {
    /// Write this message to the connection.
    SendMessage(Message),
    /// Close the sending side of the connection.
    Close,
}

/// The mathematical value of a [`WebSocketConnection`].
pub enum WebSocketConnectionView {
    SendMessage(MessageView),
    Close,
}

impl View for WebSocketConnection {
    type V = WebSocketConnectionView;

    open spec fn view(&self) -> WebSocketConnectionView {
        match self {
            WebSocketConnection::SendMessage(message) => WebSocketConnectionView::SendMessage(
                message@,
            ),
            WebSocketConnection::Close => WebSocketConnectionView::Close,
        }
    }
}

impl Clone for WebSocketConnection {
    fn clone(&self) -> (copy: Self)
        ensures
            copy@ == self@,
    {
        match self {
            WebSocketConnection::SendMessage(message) => WebSocketConnection::SendMessage(
                message.clone(),
            ),
            WebSocketConnection::Close => WebSocketConnection::Close,
        }
    }
}

/// A session record: the id of a session and the handle to its outbound
/// queue.
pub struct User {
    pub id: String,
    pub outbound: WebSocketSender,
}

/// The mathematical value of a [`User`].
pub struct UserView {
    pub id: Seq<char>,
    pub outbound: WebSocketSender,
}

impl View for User {
    type V = UserView;

    open spec fn view(&self) -> UserView {
        UserView { id: self.id@, outbound: self.outbound }
    }
}

impl Clone for User {
    fn clone(&self) -> (copy: Self)
        ensures
            copy@ == self@,
    {
        User { id: self.id.clone(), outbound: self.outbound.clone() }
    }
}

/// No id occurs twice among the records.
pub open spec fn distinct_ids(users: Seq<UserView>) -> bool {
    forall|i: int, j: int| 0 <= i < j < users.len() ==> users[i].id != users[j].id
}

/// Some record has this id.
pub open spec fn has_id(users: Seq<UserView>, id: Seq<char>) -> bool {
    exists|i: int| 0 <= i < users.len() && users[i].id == id
}

/// The place of a record with this id, where there is one.
pub open spec fn index_of(users: Seq<UserView>, id: Seq<char>) -> int {
    choose|i: int| 0 <= i < users.len() && users[i].id == id
}

/// The outbound handle registered under this id.
pub open spec fn lookup(users: Seq<UserView>, id: Seq<char>) -> Option<WebSocketSender> {
    if has_id(users, id) {
        Some(users[index_of(users, id)].outbound)
    } else {
        None
    }
}

/// The records after `id` was registered with `outbound`: a known id keeps
/// its place and gets the new handle, a new id goes to the end.
pub open spec fn upsert(users: Seq<UserView>, id: Seq<char>, outbound: WebSocketSender) -> Seq<
    UserView,
> {
    if has_id(users, id) {
        users.update(index_of(users, id), UserView { id, outbound })
    } else {
        users.push(UserView { id, outbound })
    }
}

/// The records without the one of `id`; the others keep their order.
pub open spec fn without(users: Seq<UserView>, id: Seq<char>) -> Seq<UserView> {
    if has_id(users, id) {
        users.remove(index_of(users, id))
    } else {
        users
    }
}

/// The session registry: session records, no two of them with the same id.
/// It is also the shape of a snapshot, which is a registry of its own.
pub struct ConnectedUsers {
    users: Vec<User>,
}

impl View for ConnectedUsers {
    type V = Seq<UserView>;

    closed spec fn view(&self) -> Seq<UserView> {
        Seq::new(self.users@.len(), |i: int| self.users@[i]@)
    }
}

impl ConnectedUsers {
    /// What holds of every registry: its ids are distinct.
    #[verifier::type_invariant]
    pub open spec fn well_formed(&self) -> bool {
        distinct_ids(self@)
    }

    /// An empty registry with room for `capacity` records.
    pub fn with_capacity(capacity: usize) -> (users: ConnectedUsers)
        ensures
            users@ == Seq::<UserView>::empty(),
    {
        let users = ConnectedUsers { users: Vec::with_capacity(capacity) };
        assert(users@ =~= Seq::<UserView>::empty());
        users
    }

    pub fn len(&self) -> (count: usize)
        ensures
            count == self@.len(),
    {
        self.users.len()
    }

    pub fn is_empty(&self) -> (empty: bool)
        ensures
            empty == (self@.len() == 0),
    {
        self.users.len() == 0
    }

    /// The record at place `index`.
    pub fn user(&self, index: usize) -> (user: &User)
        requires
            index < self@.len(),
        ensures
            user@ == self@[index as int],
    {
        &self.users[index]
    }

    /// The place of the record with this id.
    fn position(&self, id: &String) -> (place: Option<usize>)
        ensures
            place is Some <==> has_id(self@, id@),
            place matches Some(i) ==> i < self@.len() && self@[i as int].id == id@,
    {
        let mut i: usize = 0;
        while i < self.users.len()
            invariant
                i <= self.users.len(),
                forall|j: int| 0 <= j < i ==> self@[j].id != id@,
            decreases self.users.len() - i,
        {
            if self.users[i].id.eq(id) {
                assert(self@[i as int].id == id@);
                return Some(i);
            }
            i = i + 1;
        }
        None
    }

    /// The outbound handle registered under `id`.
    pub fn get(&self, id: &str) -> (outbound: Option<&WebSocketSender>)
        ensures
            outbound is Some <==> has_id(self@, id@),
            outbound matches Some(sender) ==> lookup(self@, id@) == Some(*sender),
    {
        proof {
            use_type_invariant(self);
        }
        let key = String::from_str(id);
        match self.position(&key) {
            Some(i) => Some(&self.users[i].outbound),
            None => None,
        }
    }

    /// Takes the records out and leaves the registry empty.
    fn take_users(&mut self) -> (users: Vec<User>)
        ensures
            final(self)@ == Seq::<UserView>::empty(),
            Seq::new(users@.len(), |i: int| users@[i]@) == old(self)@,
    {
        let mut taken = ConnectedUsers::with_capacity(0);
        core::mem::swap(self, &mut taken);
        taken.users
    }

    /// Registers `outbound` under `id` and returns the handle that was
    /// registered under it before, if there was one.
    pub fn insert(&mut self, id: String, outbound: WebSocketSender) -> (before: Option<
        WebSocketSender,
    >)
        ensures
            final(self)@ == upsert(old(self)@, id@, outbound),
            before == lookup(old(self)@, id@),
    {
        proof {
            use_type_invariant(&*self);
        }
        let place = self.position(&id);
        let mut users = self.take_users();
        let ghost before_view = old(self)@;
        match place {
            Some(i) => {
                let previous = users.remove(i);
                users.insert(i, User { id, outbound });
                assert(Seq::new(users@.len(), |k: int| users@[k]@) =~= upsert(
                    before_view,
                    id@,
                    outbound,
                ));
                *self = ConnectedUsers { users };
                Some(previous.outbound)
            },
            None => {
                users.push(User { id, outbound });
                assert(Seq::new(users@.len(), |k: int| users@[k]@) =~= upsert(
                    before_view,
                    id@,
                    outbound,
                ));
                *self = ConnectedUsers { users };
                None
            },
        }
    }

    /// Takes the record of `id` out and returns its handle, if there was
    /// one.
    pub fn remove(&mut self, id: &str) -> (before: Option<WebSocketSender>)
        ensures
            final(self)@ == without(old(self)@, id@),
            before == lookup(old(self)@, id@),
    {
        proof {
            use_type_invariant(&*self);
        }
        let key = String::from_str(id);
        match self.position(&key) {
            Some(i) => {
                let mut users = self.take_users();
                let ghost before_view = old(self)@;
                let previous = users.remove(i);
                assert(Seq::new(users@.len(), |k: int| users@[k]@) =~= without(before_view, id@));
                *self = ConnectedUsers { users };
                Some(previous.outbound)
            },
            None => None,
        }
    }
}

impl Clone for ConnectedUsers {
    fn clone(&self) -> (copy: Self)
        ensures
            copy@ == self@,
    {
        proof {
            use_type_invariant(self);
        }
        let mut users: Vec<User> = Vec::with_capacity(self.users.len());
        let mut i: usize = 0;
        while i < self.users.len()
            invariant
                i <= self.users.len(),
                users.len() == i,
                forall|j: int| 0 <= j < i ==> users@[j]@ == self.users@[j]@,
            decreases self.users.len() - i,
        {
            users.push(self.users[i].clone());
            i = i + 1;
        }
        assert(Seq::new(users@.len(), |k: int| users@[k]@) =~= self@);
        ConnectedUsers { users }
    }
}

/// A request to the state actor.
pub enum StateRequest {
    /// Append a message to the history.
    AddMessage(Message),
    /// Register a session: its id and the handle to its outbound queue.
    AddUser((String, WebSocketSender)),
    /// Look up the outbound handle of one session.
    GetUser(String),
    /// Take a snapshot of the registry.
    GetUsers,
    /// Take a snapshot of the history.
    GetMessages,
    /// Take a session out of the registry.
    RemoveUser(String),
    /// Stop accepting requests.
    Shutdown,
}

/// The mathematical value of a [`StateRequest`].
pub enum StateRequestView {
    AddMessage(MessageView),
    AddUser(Seq<char>, WebSocketSender),
    GetUser(Seq<char>),
    GetUsers,
    GetMessages,
    RemoveUser(Seq<char>),
    Shutdown,
}

impl View for StateRequest {
    type V = StateRequestView;

    open spec fn view(&self) -> StateRequestView {
        match self {
            StateRequest::AddMessage(message) => StateRequestView::AddMessage(message@),
            StateRequest::AddUser(user) => StateRequestView::AddUser(user.0@, user.1),
            StateRequest::GetUser(id) => StateRequestView::GetUser(id@),
            StateRequest::GetUsers => StateRequestView::GetUsers,
            StateRequest::GetMessages => StateRequestView::GetMessages,
            StateRequest::RemoveUser(id) => StateRequestView::RemoveUser(id@),
            StateRequest::Shutdown => StateRequestView::Shutdown,
        }
    }
}

/// An answer of the state actor.
pub enum StateResponse {
    /// A snapshot of the history, oldest message first.
    Messages(Vec<Message>),
    /// A snapshot of the registry.
    Users(ConnectedUsers),
    /// The outbound handle of the session that was asked for.
    User(WebSocketSender),
    /// The session that was asked for is not registered.
    Absent,
    /// The request was carried out.
    Done,
}

/// The mathematical value of a [`StateResponse`].
pub enum StateResponseView {
    Messages(Seq<MessageView>),
    Users(Seq<UserView>),
    User(WebSocketSender),
    Absent,
    Done,
}

impl View for StateResponse {
    type V = StateResponseView;

    open spec fn view(&self) -> StateResponseView {
        match self {
            StateResponse::Messages(messages) => StateResponseView::Messages(
                messages_view(messages@),
            ),
            StateResponse::Users(users) => StateResponseView::Users(users@),
            StateResponse::User(outbound) => StateResponseView::User(*outbound),
            StateResponse::Absent => StateResponseView::Absent,
            StateResponse::Done => StateResponseView::Done,
        }
    }
}

impl StateResponse {
    /// Whether this confirms a request.
    pub fn is_done(&self) -> (yes: bool)
        ensures
            yes == (self@ is Done),
    {
        match self {
            StateResponse::Done => true,
            _ => false,
        }
    }

    /// Whether this is a snapshot of the registry.
    pub fn is_users(&self) -> (yes: bool)
        ensures
            yes == (self@ is Users),
    {
        match self {
            StateResponse::Users(_) => true,
            _ => false,
        }
    }

    /// Whether this is a snapshot of the history.
    pub fn is_messages(&self) -> (yes: bool)
        ensures
            yes == (self@ is Messages),
    {
        match self {
            StateResponse::Messages(_) => true,
            _ => false,
        }
    }

    /// Whether this answers the question for one session: with its handle
    /// or with its absence.
    pub fn is_user(&self) -> (yes: bool)
        ensures
            yes == (self@ is User || self@ is Absent),
    {
        match self {
            StateResponse::User(_) => true,
            StateResponse::Absent => true,
            _ => false,
        }
    }

    /// Reads the answer to `GetUsers`. An answer of another kind is a
    /// fault of the program, not an input.
    pub fn into_users(self) -> (users: ConnectedUsers)
        requires
            self@ is Users,
        ensures
            self@ == StateResponseView::Users(users@),
    {
        match self {
            StateResponse::Users(users) => users,
            _ => unreached(),
        }
    }

    /// Reads the answer to `GetMessages`. An answer of another kind is a
    /// fault of the program, not an input.
    pub fn into_messages(self) -> (messages: Vec<Message>)
        requires
            self@ is Messages,
        ensures
            self@ == StateResponseView::Messages(messages_view(messages@)),
    {
        match self {
            StateResponse::Messages(messages) => messages,
            _ => unreached(),
        }
    }

    /// Reads the answer to `GetUser`: the handle of the session, or
    /// nothing where the session is not registered. An answer of another
    /// kind is a fault of the program, not an input.
    pub fn into_user(self) -> (outbound: Option<WebSocketSender>)
        requires
            self@ is User || self@ is Absent,
        ensures
            self@ == match outbound {
                Some(sender) => StateResponseView::User(sender),
                None => StateResponseView::Absent,
            },
    {
        match self {
            StateResponse::User(outbound) => Some(outbound),
            StateResponse::Absent => None,
            _ => unreached(),
        }
    }
}

/// One thing that a session asks of whoever runs it. Each is an operation
/// on a queue, and each fails when that queue is gone.
pub enum Action {
    /// Hand the request to the state actor and go on without an answer.
    Tell(StateRequest),
    /// Hand the request to the state actor and come back with its answer.
    Ask(StateRequest),
    /// Push the command on the outbound queue of this session.
    Push(User, WebSocketConnection),
    /// Report a message for which the relay has no rule.
    Unhandled(Message),
}

/// The mathematical value of an [`Action`].
pub enum ActionView {
    Tell(StateRequestView),
    Ask(StateRequestView),
    Push(UserView, WebSocketConnectionView),
    Unhandled(MessageView),
}

impl View for Action {
    type V = ActionView;

    open spec fn view(&self) -> ActionView {
        match self {
            Action::Tell(request) => ActionView::Tell(request@),
            Action::Ask(request) => ActionView::Ask(request@),
            Action::Push(user, command) => ActionView::Push(user@, command@),
            Action::Unhandled(message) => ActionView::Unhandled(message@),
        }
    }
}

/// The view of a list of actions: the value of each, in order.
pub open spec fn actions_view(actions: Seq<Action>) -> Seq<ActionView> {
    Seq::new(actions.len(), |i: int| actions[i]@)
}

/// Asks the actor to append `message` to the history. The actor sends no
/// answer to this.
pub fn add_message(message: &Message) -> (action: Action)
    ensures
        action@ == ActionView::Tell(StateRequestView::AddMessage(message@)),
{
    Action::Tell(StateRequest::AddMessage(message.clone()))
}

/// Asks the actor to register the session `uuid` with its outbound handle.
/// The answer is a confirmation, see [`StateResponse::is_done`].
pub fn add_user(uuid: String, websocket: WebSocketSender) -> (action: Action)
    ensures
        action@ == ActionView::Ask(StateRequestView::AddUser(uuid@, websocket)),
{
    Action::Ask(StateRequest::AddUser((uuid, websocket)))
}

/// Asks the actor for the outbound handle of the session `uuid`. The
/// answer is read with [`StateResponse::into_user`].
pub fn get_user(uuid: &str) -> (action: Action)
    ensures
        action@ == ActionView::Ask(StateRequestView::GetUser(uuid@)),
{
    Action::Ask(StateRequest::GetUser(String::from_str(uuid)))
}

/// Asks the actor for a snapshot of the history. The answer is read with
/// [`StateResponse::into_messages`].
pub fn get_messages() -> (action: Action)
    ensures
        action@ == ActionView::Ask(StateRequestView::GetMessages),
{
    Action::Ask(StateRequest::GetMessages)
}

/// Asks the actor for a snapshot of the registry. The answer is read with
/// [`StateResponse::into_users`].
pub fn get_users() -> (action: Action)
    ensures
        action@ == ActionView::Ask(StateRequestView::GetUsers),
{
    Action::Ask(StateRequest::GetUsers)
}

/// Asks the actor to take the session `uuid` out of the registry. The
/// answer is a confirmation, see [`StateResponse::is_done`].
pub fn remove_user(uuid: &str) -> (action: Action)
    ensures
        action@ == ActionView::Ask(StateRequestView::RemoveUser(uuid@)),
{
    Action::Ask(StateRequest::RemoveUser(String::from_str(uuid)))
}

} // verus!
