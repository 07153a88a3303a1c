//! The state actor: the one owner of the message history and of the
//! session registry. It takes one request at a time and is the only code
//! that changes either.

use crate::channels::{
    clone_messages, distinct_ids, has_id, lookup, messages_view, upsert, without, ConnectedUsers,
    Message, MessageView, StateRequest, StateRequestView, StateResponse, StateResponseView,
    UserView, WebSocketSender,
};
use vstd::prelude::*;

verus! {

/// What the actor owns.
pub struct State {
    messages: Vec<Message>,
    users: ConnectedUsers,
    accepting: bool,
}

/// The mathematical value of a [`State`].
pub struct StateView {
    /// The history, oldest message first.
    pub messages: Seq<MessageView>,
    /// The registry.
    pub users: Seq<UserView>,
    /// Whether the command queue is still open.
    pub accepting: bool,
}

/// What the actor's loop does once a request has been processed.
pub enum Outcome {
    /// Send this answer to whoever made the request.
    Reply(StateResponse),
    /// Send no answer.
    NoReply,
    /// Close the command queue, so that no further request gets in, and
    /// send no answer. The loop ends when the queue has run empty.
    Stop,
}

/// The mathematical value of an [`Outcome`].
pub enum OutcomeView {
    Reply(StateResponseView),
    NoReply,
    Stop,
}

impl View for Outcome {
    type V = OutcomeView;

    open spec fn view(&self) -> OutcomeView {
        match self {
            Outcome::Reply(response) => OutcomeView::Reply(response@),
            Outcome::NoReply => OutcomeView::NoReply,
            Outcome::Stop => OutcomeView::Stop,
        }
    }
}

impl StateView {
    /// The state of an actor that has seen no request.
    pub open spec fn initial() -> StateView {
        StateView { messages: Seq::empty(), users: Seq::empty(), accepting: true }
    }

    /// What holds of every state: no id is registered twice.
    pub open spec fn well_formed(self) -> bool {
        distinct_ids(self.users)
    }

    /// The state after `request` has been processed.
    pub open spec fn next(self, request: StateRequestView) -> StateView {
        match request {
            StateRequestView::AddMessage(message) => StateView {
                messages: self.messages.push(message),
                ..self
            },
            StateRequestView::AddUser(id, outbound) => StateView {
                users: upsert(self.users, id, outbound),
                ..self
            },
            StateRequestView::RemoveUser(id) => StateView { users: without(self.users, id), ..self },
            StateRequestView::Shutdown => StateView { accepting: false, ..self },
            StateRequestView::GetUser(_)
            | StateRequestView::GetUsers
            | StateRequestView::GetMessages => self,
        }
    }

    /// What the loop does with `request` in this state.
    pub open spec fn outcome(self, request: StateRequestView) -> OutcomeView {
        match request {
            StateRequestView::AddMessage(_) => OutcomeView::NoReply,
            StateRequestView::AddUser(_, _) => OutcomeView::Reply(StateResponseView::Done),
            StateRequestView::GetUser(id) => match lookup(self.users, id) {
                Some(outbound) => OutcomeView::Reply(StateResponseView::User(outbound)),
                None => OutcomeView::Reply(StateResponseView::Absent),
            },
            StateRequestView::GetUsers => OutcomeView::Reply(StateResponseView::Users(self.users)),
            StateRequestView::GetMessages => OutcomeView::Reply(
                StateResponseView::Messages(self.messages),
            ),
            StateRequestView::RemoveUser(_) => OutcomeView::Reply(StateResponseView::Done),
            StateRequestView::Shutdown => if self.accepting {
                OutcomeView::Stop
            } else {
                OutcomeView::NoReply
            },
        }
    }
}

impl View for State {
    type V = StateView;

    closed spec fn view(&self) -> StateView {
        StateView {
            messages: messages_view(self.messages@),
            users: self.users@,
            accepting: self.accepting,
        }
    }
}

impl State {
    /// A state with an empty history and an empty registry, open for
    /// requests.
    pub fn init() -> (state: State)
        ensures
            state@ == StateView::initial(),
    {
        let messages = Vec::with_capacity(100);
        let users = ConnectedUsers::with_capacity(10);
        let state = State { messages, users, accepting: true };
        assert(state@.messages =~= Seq::empty());
        state
    }

    /// Appends `message` to the history.
    pub fn add_message(&mut self, message: Message)
        ensures
            final(self)@ == old(self)@.next(StateRequestView::AddMessage(message@)),
    {
        self.messages.push(message);
        assert(final(self)@.messages =~= old(self)@.messages.push(message@));
    }

    /// Registers the session `uuid`. A session that is registered already
    /// gets the new handle: that is an update, not an error.
    pub fn add_user(&mut self, uuid: String, websocket_sender: WebSocketSender)
        ensures
            final(self)@ == old(self)@.next(StateRequestView::AddUser(uuid@, websocket_sender)),
    {
        self.users.insert(uuid, websocket_sender);
    }

    /// The outbound handle of the session `uuid`, if it is registered.
    pub fn get_user(&self, uuid: &str) -> (outbound: Option<WebSocketSender>)
        ensures
            outbound == lookup(self@.users, uuid@),
    {
        match self.users.get(uuid) {
            Some(outbound) => Some(outbound.clone()),
            None => None,
        }
    }

    /// A copy of the history, in the order in which the messages came.
    pub fn get_messages(&self) -> (messages: Vec<Message>)
        ensures
            messages_view(messages@) == self@.messages,
    {
        clone_messages(&self.messages)
    }

    /// A copy of the registry.
    pub fn get_users(&self) -> (users: ConnectedUsers)
        ensures
            users@ == self@.users,
    {
        self.users.clone()
    }

    /// Takes the session `uuid` out of the registry. That it is not there
    /// is no error.
    pub fn remove_user(&mut self, uuid: &str)
        ensures
            final(self)@ == old(self)@.next(StateRequestView::RemoveUser(uuid@)),
    {
        self.users.remove(uuid);
    }

    /// Stops accepting requests. Says whether this call was the one that
    /// stopped the actor: only the first is.
    pub fn shutdown(&mut self) -> (stopped: bool)
        ensures
            final(self)@ == old(self)@.next(StateRequestView::Shutdown),
            stopped == old(self)@.accepting,
    {
        let stopped = self.accepting;
        self.accepting = false;
        stopped
    }

    /// Whether the actor still accepts requests.
    pub fn is_accepting(&self) -> (accepting: bool)
        ensures
            accepting == self@.accepting,
    {
        self.accepting
    }

    /// The history as the actor holds it.
    pub fn messages(&self) -> (messages: &Vec<Message>)
        ensures
            messages_view(messages@) == self@.messages,
    {
        &self.messages
    }

    /// The registry as the actor holds it.
    pub fn users(&self) -> (users: &ConnectedUsers)
        ensures
            users@ == self@.users,
    {
        &self.users
    }

    /// Processes one request from start to end: changes the state as the
    /// request asks and says what the loop owes its sender.
    pub fn process(&mut self, request: StateRequest) -> (outcome: Outcome)
        ensures
            final(self)@ == old(self)@.next(request@),
            outcome@ == old(self)@.outcome(request@),
            final(self)@.well_formed(),
    {
        proof {
            use_type_invariant(&self.users);
        }
        let outcome = match request {
            StateRequest::AddMessage(message) => {
                self.add_message(message);
                Outcome::NoReply
            },
            StateRequest::AddUser((uuid, websocket_sender)) => {
                self.add_user(uuid, websocket_sender);
                Outcome::Reply(StateResponse::Done)
            },
            StateRequest::GetUser(uuid) => match self.get_user(uuid.as_str()) {
                Some(outbound) => Outcome::Reply(StateResponse::User(outbound)),
                None => Outcome::Reply(StateResponse::Absent),
            },
            StateRequest::GetUsers => Outcome::Reply(StateResponse::Users(self.get_users())),
            StateRequest::GetMessages => Outcome::Reply(
                StateResponse::Messages(self.get_messages()),
            ),
            StateRequest::RemoveUser(uuid) => {
                self.remove_user(uuid.as_str());
                Outcome::Reply(StateResponse::Done)
            },
            StateRequest::Shutdown => if self.shutdown() {
                Outcome::Stop
            } else {
                Outcome::NoReply
            },
        };
        proof {
            use_type_invariant(&self.users);
        }
        outcome
    }
}

/// The state after the requests have been processed one after the other.
pub open spec fn run(state: StateView, requests: Seq<StateRequestView>) -> StateView
    decreases requests.len(),
{
    if requests.len() == 0 {
        state
    } else {
        run(state, requests.drop_last()).next(requests.last())
    }
}

/// What the loop did with each of the requests, in their order.
pub open spec fn outcomes(state: StateView, requests: Seq<StateRequestView>) -> Seq<OutcomeView>
    decreases requests.len(),
{
    if requests.len() == 0 {
        Seq::empty()
    } else {
        outcomes(state, requests.drop_last()).push(
            run(state, requests.drop_last()).outcome(requests.last()),
        )
    }
}

/// The messages that the requests ask to append, in their order.
pub open spec fn submitted(requests: Seq<StateRequestView>) -> Seq<MessageView>
    decreases requests.len(),
{
    if requests.len() == 0 {
        Seq::empty()
    } else {
        match requests.last() {
            StateRequestView::AddMessage(message) => submitted(requests.drop_last()).push(message),
            _ => submitted(requests.drop_last()),
        }
    }
}

/// Registering a session keeps the ids distinct. The session is then
/// found under its id with the handle just given, every other id finds
/// what it found before, and the registry grows by one exactly when the id
/// is new.
pub proof fn lemma_upsert(users: Seq<UserView>, id: Seq<char>, outbound: WebSocketSender)
    requires
        distinct_ids(users),
    ensures
        distinct_ids(upsert(users, id, outbound)),
        lookup(upsert(users, id, outbound), id) == Some(outbound),
        forall|other: Seq<char>|
            other != id ==> lookup(upsert(users, id, outbound), other) == lookup(users, other),
        upsert(users, id, outbound).len() == if has_id(users, id) {
            users.len()
        } else {
            users.len() + 1
        },
{
    let after = upsert(users, id, outbound);
    let place = if has_id(users, id) {
        index_of_witness(users, id)
    } else {
        users.len() as int
    };
    assert(after[place].id == id);
    assert(has_id(after, id));
    assert forall|other: Seq<char>| other != id implies lookup(after, other) == lookup(
        users,
        other,
    ) by {
        if has_id(users, other) {
            let i = index_of_witness(users, other);
            assert(after[i] == users[i]);
            assert(has_id(after, other));
            let j = index_of_witness(after, other);
            assert(j < users.len());
            assert(after[j] == users[j]);
        } else if has_id(after, other) {
            let j = index_of_witness(after, other);
            assert(users[j].id == other);
        }
    }
}

/// Taking a session out keeps the ids distinct. Its id is then found no
/// more, every other id finds what it found before, and the registry
/// shrinks by one exactly when the id was there.
pub proof fn lemma_without(users: Seq<UserView>, id: Seq<char>)
    requires
        distinct_ids(users),
    ensures
        distinct_ids(without(users, id)),
        !has_id(without(users, id), id),
        forall|other: Seq<char>|
            other != id ==> lookup(without(users, id), other) == lookup(users, other),
        without(users, id).len() == if has_id(users, id) {
            users.len() - 1
        } else {
            users.len() as int
        },
{
    let after = without(users, id);
    if has_id(users, id) {
        let place = index_of_witness(users, id);
        assert forall|k: int| 0 <= k < after.len() implies after[k] == users[if k < place {
            k
        } else {
            k + 1
        }] by {}
        assert forall|other: Seq<char>| other != id implies lookup(after, other) == lookup(
            users,
            other,
        ) by {
            if has_id(users, other) {
                let i = index_of_witness(users, other);
                let k = if i < place {
                    i
                } else {
                    i - 1
                };
                assert(after[k] == users[i]);
                assert(has_id(after, other));
                let j = index_of_witness(after, other);
                assert(after[j].id == after[k].id);
            } else if has_id(after, other) {
                let j = index_of_witness(after, other);
                assert(users[if j < place {
                    j
                } else {
                    j + 1
                }].id == other);
            }
        }
    }
}

/// The place at which a registered id is found.
pub proof fn index_of_witness(users: Seq<UserView>, id: Seq<char>) -> (place: int)
    requires
        has_id(users, id),
    ensures
        0 <= place < users.len(),
        users[place].id == id,
        place == crate::channels::index_of(users, id),
{
    crate::channels::index_of(users, id)
}

/// Processing a request keeps the ids of the registry distinct.
pub proof fn lemma_next_well_formed(state: StateView, request: StateRequestView)
    requires
        state.well_formed(),
    ensures
        state.next(request).well_formed(),
{
    match request {
        StateRequestView::AddUser(id, outbound) => lemma_upsert(state.users, id, outbound),
        StateRequestView::RemoveUser(id) => lemma_without(state.users, id),
        _ => {},
    }
}

/// The outcome of the request at place `at` is what the state reached by
/// the requests before it gives for that request.
pub proof fn lemma_outcome_at(state: StateView, requests: Seq<StateRequestView>, at: int)
    requires
        0 <= at < requests.len(),
    ensures
        outcomes(state, requests).len() == requests.len(),
        outcomes(state, requests)[at] == run(state, requests.take(at)).outcome(requests[at]),
    decreases requests.len(),
{
    lemma_outcomes_len(state, requests);
    if at == requests.len() - 1 {
        assert(requests.take(at) =~= requests.drop_last());
    } else {
        lemma_outcome_at(state, requests.drop_last(), at);
        assert(requests.drop_last().take(at) =~= requests.take(at));
    }
}

/// Every request has its outcome.
pub proof fn lemma_outcomes_len(state: StateView, requests: Seq<StateRequestView>)
    ensures
        outcomes(state, requests).len() == requests.len(),
    decreases requests.len(),
{
    if requests.len() > 0 {
        lemma_outcomes_len(state, requests.drop_last());
    }
}

/// Uniqueness: whatever requests are processed, and in particular
/// whatever sessions are registered, no id is in the registry twice after
/// any of them.
pub proof fn lemma_registry_unique(state: StateView, requests: Seq<StateRequestView>)
    requires
        state.well_formed(),
    ensures
        forall|k: int| 0 <= k <= requests.len() ==> distinct_ids(#[trigger] run(state, requests.take(k)).users),
    decreases requests.len(),
{
    assert forall|k: int| 0 <= k <= requests.len() implies distinct_ids(
        #[trigger] run(state, requests.take(k)).users,
    ) by {
        if k == requests.len() {
            assert(requests.take(k) =~= requests);
            if requests.len() > 0 {
                lemma_registry_unique(state, requests.drop_last());
                assert(requests.drop_last().take(k - 1) =~= requests.drop_last());
                lemma_next_well_formed(run(state, requests.drop_last()), requests.last());
            }
        } else {
            lemma_registry_unique(state, requests.drop_last());
            assert(requests.drop_last().take(k) =~= requests.take(k));
        }
    }
}

/// Append-only history: after any requests the history is what it was,
/// followed by the messages that the requests submitted, in the order of
/// their submission. Nothing that was there is changed or moved.
pub proof fn lemma_history_append_only(state: StateView, requests: Seq<StateRequestView>)
    ensures
        run(state, requests).messages == state.messages + submitted(requests),
        state.messages.is_prefix_of(run(state, requests).messages),
    decreases requests.len(),
{
    if requests.len() > 0 {
        lemma_history_append_only(state, requests.drop_last());
    }
    assert(run(state, requests).messages =~= state.messages + submitted(requests));
}

/// After a run of `AddMessage` requests on a fresh actor, `GetMessages`
/// is answered with exactly the payloads, in the order of submission.
pub proof fn lemma_get_messages_returns_submitted(payloads: Seq<MessageView>)
    ensures
        run(
            StateView::initial(),
            Seq::new(payloads.len(), |i: int| StateRequestView::AddMessage(payloads[i])),
        ).outcome(StateRequestView::GetMessages) == OutcomeView::Reply(
            StateResponseView::Messages(payloads),
        ),
{
    let requests = Seq::new(payloads.len(), |i: int| StateRequestView::AddMessage(payloads[i]));
    lemma_history_append_only(StateView::initial(), requests);
    lemma_submitted_all(payloads);
    assert(Seq::<MessageView>::empty() + payloads =~= payloads);
}

/// Where every request is an `AddMessage`, what was submitted is the
/// payloads.
pub proof fn lemma_submitted_all(payloads: Seq<MessageView>)
    ensures
        submitted(Seq::new(payloads.len(), |i: int| StateRequestView::AddMessage(payloads[i])))
            == payloads,
    decreases payloads.len(),
{
    let requests = Seq::new(payloads.len(), |i: int| StateRequestView::AddMessage(payloads[i]));
    if payloads.len() > 0 {
        lemma_submitted_all(payloads.drop_last());
        assert(requests.drop_last() =~= Seq::new(
            payloads.drop_last().len(),
            |i: int| StateRequestView::AddMessage(payloads.drop_last()[i]),
        ));
        assert(submitted(requests) =~= payloads);
    } else {
        assert(submitted(requests) =~= payloads);
    }
}

/// Snapshot isolation: what a request is answered with depends on the
/// requests up to it and on nothing that comes later. Two runs that agree
/// up to a request give it the same outcome, a snapshot included.
pub proof fn lemma_snapshot_isolation(
    state: StateView,
    first: Seq<StateRequestView>,
    second: Seq<StateRequestView>,
    at: int,
)
    requires
        0 <= at < first.len(),
        at < second.len(),
        first.take(at + 1) == second.take(at + 1),
    ensures
        outcomes(state, first)[at] == outcomes(state, second)[at],
{
    lemma_outcome_at(state, first, at);
    lemma_outcome_at(state, second, at);
    assert(first.take(at + 1)[at] == first[at]);
    assert(second.take(at + 1)[at] == second[at]);
    assert(first.take(at) =~= first.take(at + 1).take(at));
    assert(second.take(at) =~= second.take(at + 1).take(at));
}

/// Once the actor has stopped accepting, no request makes it accept again.
pub proof fn lemma_stopped_stays_stopped(state: StateView, requests: Seq<StateRequestView>)
    requires
        !state.accepting,
    ensures
        !run(state, requests).accepting,
    decreases requests.len(),
{
    if requests.len() > 0 {
        lemma_stopped_stays_stopped(state, requests.drop_last());
    }
}

/// A run in two parts: the second part starts where the first ended.
pub proof fn lemma_run_split(state: StateView, requests: Seq<StateRequestView>, at: int)
    requires
        0 <= at <= requests.len(),
    ensures
        run(state, requests) == run(run(state, requests.take(at)), requests.skip(at)),
    decreases requests.len(),
{
    if at == requests.len() {
        assert(requests.take(at) =~= requests);
        assert(requests.skip(at) =~= Seq::empty());
    } else {
        lemma_run_split(state, requests.drop_last(), at);
        assert(requests.drop_last().take(at) =~= requests.take(at));
        assert(requests.drop_last().skip(at) =~= requests.skip(at).drop_last());
    }
}

/// Idempotent shutdown: a second `Shutdown` changes nothing and stops
/// nothing, and in any run at most one request has the outcome `Stop`.
pub proof fn lemma_shutdown_once(state: StateView, requests: Seq<StateRequestView>)
    ensures
        state.next(StateRequestView::Shutdown).next(StateRequestView::Shutdown) == state.next(
            StateRequestView::Shutdown,
        ),
        state.next(StateRequestView::Shutdown).outcome(StateRequestView::Shutdown)
            == OutcomeView::NoReply,
        forall|i: int, j: int|
            0 <= i < j < requests.len() ==> !(outcomes(state, requests)[i] is Stop && outcomes(
                state,
                requests,
            )[j] is Stop),
{
    assert forall|i: int, j: int| 0 <= i < j < requests.len() implies !(outcomes(
        state,
        requests,
    )[i] is Stop && outcomes(state, requests)[j] is Stop) by {
        lemma_outcome_at(state, requests, i);
        lemma_outcome_at(state, requests, j);
        if outcomes(state, requests)[i] is Stop {
            let before = run(state, requests.take(i));
            assert(requests[i] is Shutdown);
            assert(requests.take(i + 1).drop_last() =~= requests.take(i));
            assert(!run(state, requests.take(i + 1)).accepting);
            lemma_run_split(state, requests.take(j), i + 1);
            assert(requests.take(j).take(i + 1) =~= requests.take(i + 1));
            lemma_stopped_stays_stopped(
                run(state, requests.take(i + 1)),
                requests.take(j).skip(i + 1),
            );
        }
    }
}

} // verus!
