//! What the sessions see: the laws of joining, broadcasting and leaving,
//! stated over the steps of a session run against the steps of the actor.

use crate::channels::{
    distinct_ids, has_id, index_of, lookup, ActionView, MessageView, StateRequestView,
    StateResponseView, UserView, WebSocketConnectionView, WebSocketSender,
};
use crate::json::{decimal, MessageKind};
use crate::server::{
    deliver, fan_out, greeting_plan, replay, texts, EventView, GreetingView, SessionView,
};
use crate::state::{lemma_upsert, lemma_without, OutcomeView, StateView};
use vstd::prelude::*;

verus! {

/// What the session `id` receives when the actions are carried out: the
/// commands pushed to it, in the order of the actions.
pub open spec fn received(actions: Seq<ActionView>, id: Seq<char>) -> Seq<
    WebSocketConnectionView,
>
    decreases actions.len(),
{
    if actions.len() == 0 {
        Seq::empty()
    } else {
        match actions.last() {
            ActionView::Push(user, command) if user.id == id => received(
                actions.drop_last(),
                id,
            ).push(command),
            _ => received(actions.drop_last(), id),
        }
    }
}

/// What a session receives from two lists of actions carried out one
/// after the other.
pub proof fn lemma_received_concat(
    first: Seq<ActionView>,
    second: Seq<ActionView>,
    id: Seq<char>,
)
    ensures
        received(first + second, id) == received(first, id) + received(second, id),
    decreases second.len(),
{
    if second.len() == 0 {
        assert(first + second =~= first);
        assert(received(first, id) + received(second, id) =~= received(first, id));
    } else {
        lemma_received_concat(first, second.drop_last(), id);
        assert((first + second).drop_last() =~= first + second.drop_last());
        assert((first + second).last() == second.last());
        assert(received(first + second, id) =~= received(first, id) + received(second, id));
    }
}

/// A push to every session of a snapshot reaches each of them once, and
/// nobody else.
pub proof fn lemma_received_fan_out(
    users: Seq<UserView>,
    command: WebSocketConnectionView,
    id: Seq<char>,
)
    requires
        distinct_ids(users),
    ensures
        received(fan_out(users, command), id) == if has_id(users, id) {
            seq![command]
        } else {
            Seq::empty()
        },
    decreases users.len(),
{
    let actions = fan_out(users, command);
    if users.len() > 0 {
        let rest = users.drop_last();
        lemma_received_fan_out(rest, command, id);
        assert(actions.drop_last() =~= fan_out(rest, command));
        assert(actions.last() == ActionView::Push(users.last(), command));
        if users.last().id == id {
            assert(!has_id(rest, id)) by {
                if has_id(rest, id) {
                    let i = index_of(rest, id);
                    assert(users[i].id == users[users.len() - 1].id);
                }
            }
            assert(users[users.len() - 1].id == id);
            assert(has_id(users, id));
            assert(received(actions, id) =~= seq![command]);
        } else {
            if has_id(rest, id) {
                let i = index_of(rest, id);
                assert(users[i].id == id);
            }
            if has_id(users, id) {
                let i = index_of(users, id);
                assert(rest[i].id == id);
            }
        }
    }
}

/// A replay reaches the session that it is for with one `message`
/// envelope for each text of the history, oldest first, and nobody else.
pub proof fn lemma_received_replay(me: UserView, history: Seq<MessageView>, id: Seq<char>)
    ensures
        received(replay(me, history), id) == if me.id == id {
            Seq::new(
                texts(history).len(),
                |i: int| deliver(MessageKind::Message, texts(history)[i]),
            )
        } else {
            Seq::empty()
        },
{
    lemma_received_pushes(me, texts(history), id);
    assert(replay(me, history) =~= pushes(me, texts(history)));
}

/// One `message` envelope to one session for each of the texts.
pub open spec fn pushes(me: UserView, readable: Seq<Seq<char>>) -> Seq<ActionView> {
    Seq::new(
        readable.len(),
        |i: int| ActionView::Push(me, deliver(MessageKind::Message, readable[i])),
    )
}

/// What a session receives from [`pushes`].
pub proof fn lemma_received_pushes(me: UserView, readable: Seq<Seq<char>>, id: Seq<char>)
    ensures
        received(pushes(me, readable), id) == if me.id == id {
            Seq::new(readable.len(), |i: int| deliver(MessageKind::Message, readable[i]))
        } else {
            Seq::empty()
        },
    decreases readable.len(),
{
    if readable.len() > 0 {
        lemma_received_pushes(me, readable.drop_last(), id);
        assert(pushes(me, readable).drop_last() =~= pushes(me, readable.drop_last()));
        if me.id == id {
            assert(received(pushes(me, readable), id) =~= Seq::new(
                readable.len(),
                |i: int| deliver(MessageKind::Message, readable[i]),
            ));
        }
    } else {
        assert(received(pushes(me, readable), id) =~= Seq::empty());
    }
}

/// Join protocol. A session joins an actor in any state: its greeting
/// registers it, asks for the registry and then for the history, and
/// hands out its plan. Carried out, the plan gives the new session first a
/// `uuid` envelope with its own id, then a `connected_users` envelope with
/// the number of sessions now registered, then one `message` envelope for
/// each text of the history in its order. Every other registered session
/// gets just the `connected_users` envelope.
pub proof fn lemma_join_protocol(state: StateView, id: Seq<char>, outbound: WebSocketSender)
    requires
        state.well_formed(),
    ensures
        ({
            let register = StateRequestView::AddUser(id, outbound);
            let (start, first) = GreetingView::start(id, outbound);
            let joined = state.next(register);
            let (counting, second) = start.step(EventView::Response(StateResponseView::Done));
            let (replaying, third) = counting.step(
                EventView::Response(StateResponseView::Users(joined.users)),
            );
            let (done, plan) = replaying.step(
                EventView::Response(StateResponseView::Messages(joined.messages)),
            );
            let count = deliver(MessageKind::ConnectedUsers, decimal(joined.users.len()));
            &&& first == seq![ActionView::Ask(register)]
            &&& start.expects(EventView::Response(StateResponseView::Done))
            &&& counting.expects(EventView::Response(StateResponseView::Users(joined.users)))
            &&& replaying.expects(EventView::Response(StateResponseView::Messages(joined.messages)))
            &&& state.outcome(register) == OutcomeView::Reply(StateResponseView::Done)
            &&& second == Ok::<Seq<ActionView>, crate::channels::RelayError>(
                seq![ActionView::Ask(StateRequestView::GetUsers)],
            )
            &&& joined.outcome(StateRequestView::GetUsers) == OutcomeView::Reply(
                StateResponseView::Users(joined.users),
            )
            &&& third == Ok::<Seq<ActionView>, crate::channels::RelayError>(
                seq![ActionView::Ask(StateRequestView::GetMessages)],
            )
            &&& joined.outcome(StateRequestView::GetMessages) == OutcomeView::Reply(
                StateResponseView::Messages(joined.messages),
            )
            &&& joined.messages == state.messages
            &&& done.phase is Done
            &&& plan is Ok
            &&& received(plan->Ok_0, id) == seq![deliver(MessageKind::Uuid, id), count] + Seq::new(
                texts(state.messages).len(),
                |i: int| deliver(MessageKind::Message, texts(state.messages)[i]),
            )
            &&& forall|other: Seq<char>|
                other != id ==> #[trigger] received(plan->Ok_0, other) == if has_id(
                    state.users,
                    other,
                ) {
                    seq![count]
                } else {
                    Seq::empty()
                }
        }),
{
    let joined = state.next(StateRequestView::AddUser(id, outbound));
    lemma_upsert(state.users, id, outbound);
    let users = joined.users;
    let me = UserView { id, outbound };
    let count = deliver(MessageKind::ConnectedUsers, decimal(users.len()));
    let head = seq![ActionView::Push(me, deliver(MessageKind::Uuid, id))];
    let plan = greeting_plan(id, users, joined.messages);
    assert(plan == head + fan_out(users, count) + replay(me, joined.messages));
    assert(has_id(users, id));
    assert forall|who: Seq<char>| true implies received(plan, who) == received(head, who)
        + received(fan_out(users, count), who) + received(replay(me, joined.messages), who) by {
        lemma_received_concat(head + fan_out(users, count), replay(me, joined.messages), who);
        lemma_received_concat(head, fan_out(users, count), who);
    }
    assert forall|who: Seq<char>| true implies received(head, who) == if who == id {
        seq![deliver(MessageKind::Uuid, id)]
    } else {
        Seq::empty()
    } by {
        assert(head.drop_last() =~= Seq::<ActionView>::empty());
        assert(received(head.drop_last(), who) =~= Seq::empty());
        if who == id {
            assert(received(head, who) =~= seq![deliver(MessageKind::Uuid, id)]);
        }
    }
    lemma_received_fan_out(users, count, id);
    lemma_received_replay(me, joined.messages, id);
    assert(received(plan, id) =~= seq![deliver(MessageKind::Uuid, id), count] + Seq::new(
        texts(state.messages).len(),
        |i: int| deliver(MessageKind::Message, texts(state.messages)[i]),
    ));
    assert forall|other: Seq<char>| other != id implies #[trigger] received(plan, other)
        == if has_id(state.users, other) {
        seq![count]
    } else {
        Seq::empty()
    } by {
        lemma_received_fan_out(users, count, other);
        lemma_received_replay(me, joined.messages, other);
        lemma_lookup_has_id(users, other);
        lemma_lookup_has_id(state.users, other);
        assert(received(plan, other) =~= received(fan_out(users, count), other));
    }
}

/// An id is registered exactly when it finds a handle.
pub proof fn lemma_lookup_has_id(users: Seq<UserView>, id: Seq<char>)
    ensures
        has_id(users, id) <==> lookup(users, id) is Some,
{
}

/// Broadcast. A text message from a session, whatever sessions are
/// registered: the session has the message put into the history and asks
/// for the registry, and on the snapshot hands out its plan. Carried out,
/// it gives every registered session, the sender included, exactly one
/// `message` envelope with the text, the same for all, and gives nothing
/// to anybody else. The session then waits for the next message.
pub proof fn lemma_broadcast(state: StateView, session: SessionView, text: Seq<char>)
    requires
        state.well_formed(),
        session.phase is Active,
    ensures
        ({
            let frame = MessageView::Text(text);
            let (waiting, first) = session.step(EventView::Frame(frame));
            let stored = state.next(StateRequestView::AddMessage(frame));
            let (after, plan) = waiting.step(
                EventView::Response(StateResponseView::Users(stored.users)),
            );
            &&& first == Ok::<Seq<ActionView>, crate::channels::RelayError>(
                seq![
                    ActionView::Tell(StateRequestView::AddMessage(frame)),
                    ActionView::Ask(StateRequestView::GetUsers),
                ],
            )
            &&& session.expects(EventView::Frame(frame))
            &&& waiting.expects(EventView::Response(StateResponseView::Users(stored.users)))
            &&& stored.messages == state.messages.push(frame)
            &&& stored.users == state.users
            &&& stored.outcome(StateRequestView::GetUsers) == OutcomeView::Reply(
                StateResponseView::Users(stored.users),
            )
            &&& after == session
            &&& plan is Ok
            &&& plan->Ok_0.len() == state.users.len()
            &&& forall|id: Seq<char>| #[trigger]
                received(plan->Ok_0, id) == if has_id(state.users, id) {
                    seq![deliver(MessageKind::Message, text)]
                } else {
                    Seq::empty()
                }
        }),
{
    let command = deliver(MessageKind::Message, text);
    assert forall|id: Seq<char>| #[trigger]
        received(fan_out(state.users, command), id) == if has_id(state.users, id) {
            seq![command]
        } else {
            Seq::empty()
        } by {
        lemma_received_fan_out(state.users, command, id);
    }
}

/// Leave protocol. A close message from a session: the session asks for
/// its own handle, pushes the command to close to it if it is registered,
/// has itself taken out of the registry and asks for the sessions that
/// remain. Carried out, its last plan gives every remaining session
/// exactly one `connected_users` envelope with the number of the
/// remaining, which is one less than before if the session was registered,
/// and gives nothing to the session that left, which is registered no more
/// and has stopped.
pub proof fn lemma_leave_protocol(state: StateView, session: SessionView)
    requires
        state.well_formed(),
        session.phase is Active,
    ensures
        ({
            let id = session.id;
            let own = lookup(state.users, id);
            let answer = match own {
                Some(outbound) => StateResponseView::User(outbound),
                None => StateResponseView::Absent,
            };
            let (resolving, first) = session.step(EventView::Frame(MessageView::Close));
            let (removing, second) = resolving.step(EventView::Response(answer));
            let left = state.next(StateRequestView::RemoveUser(id));
            let (counting, third) = removing.step(EventView::Response(StateResponseView::Done));
            let (after, plan) = counting.step(
                EventView::Response(StateResponseView::Users(left.users)),
            );
            let count = deliver(MessageKind::ConnectedUsers, decimal(left.users.len()));
            let remove = ActionView::Ask(StateRequestView::RemoveUser(id));
            &&& first == Ok::<Seq<ActionView>, crate::channels::RelayError>(
                seq![ActionView::Ask(StateRequestView::GetUser(id))],
            )
            &&& state.outcome(StateRequestView::GetUser(id)) == OutcomeView::Reply(answer)
            &&& resolving.expects(EventView::Response(answer))
            &&& second == Ok::<Seq<ActionView>, crate::channels::RelayError>(
                match own {
                    Some(outbound) => seq![
                        ActionView::Push(UserView { id, outbound }, WebSocketConnectionView::Close),
                        remove,
                    ],
                    None => seq![remove],
                },
            )
            &&& state.outcome(StateRequestView::RemoveUser(id)) == OutcomeView::Reply(
                StateResponseView::Done,
            )
            &&& third == Ok::<Seq<ActionView>, crate::channels::RelayError>(
                seq![ActionView::Ask(StateRequestView::GetUsers)],
            )
            &&& !has_id(left.users, id)
            &&& left.users.len() == if own is Some {
                state.users.len() - 1
            } else {
                state.users.len() as int
            }
            &&& left.well_formed()
            &&& after.phase is Closed
            &&& plan is Ok
            &&& received(plan->Ok_0, id) == Seq::<WebSocketConnectionView>::empty()
            &&& forall|other: Seq<char>|
                other != id ==> #[trigger] received(plan->Ok_0, other) == if has_id(
                    state.users,
                    other,
                ) {
                    seq![count]
                } else {
                    Seq::empty()
                }
        }),
{
    let id = session.id;
    let left = state.next(StateRequestView::RemoveUser(id));
    lemma_without(state.users, id);
    lemma_lookup_has_id(state.users, id);
    let count = deliver(MessageKind::ConnectedUsers, decimal(left.users.len()));
    lemma_received_fan_out(left.users, count, id);
    assert forall|other: Seq<char>| other != id implies #[trigger] received(
        fan_out(left.users, count),
        other,
    ) == if has_id(state.users, other) {
        seq![count]
    } else {
        Seq::empty()
    } by {
        lemma_received_fan_out(left.users, count, other);
        lemma_lookup_has_id(left.users, other);
        lemma_lookup_has_id(state.users, other);
    }
}

/// Nothing follows a question: a list of actions in which only the last
/// may ask the actor for an answer.
pub open spec fn question_last(actions: Seq<ActionView>) -> bool {
    forall|i: int| 0 <= i < actions.len() - 1 ==> !(#[trigger] actions[i] is Ask)
}

/// Whatever happens in whatever phase, a session asks at most one question
/// in a step, and asks it last: the runner can always come back with the
/// one answer.
pub proof fn lemma_session_asks_last(session: SessionView, event: EventView)
    ensures
        session.step(event).1 matches Ok(actions) ==> question_last(actions),
{
}

/// The same of a greeting, and the plan that it ends with asks nothing.
pub proof fn lemma_greeting_asks_last(greeting: GreetingView, event: EventView)
    ensures
        greeting.step(event).1 matches Ok(actions) ==> question_last(actions),
        forall|id: Seq<char>, users: Seq<UserView>, history: Seq<MessageView>, i: int|
            0 <= i < greeting_plan(id, users, history).len() ==> #[trigger] greeting_plan(
                id,
                users,
                history,
            )[i] is Push,
{
}

} // verus!
