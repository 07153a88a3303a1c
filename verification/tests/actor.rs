use relay::channels::{
    add_message, add_user, get_messages, get_user, get_users, remove_user, Action, ConnectedUsers,
    Message, StateRequest, StateResponse, WebSocketConnection, WebSocketSender,
};
use relay::state::{Outcome, State};
use std::str::FromStr;
use tokio::sync::mpsc;
use uuid::Uuid;

fn queue() -> (WebSocketSender, mpsc::Receiver<WebSocketConnection>) {
    mpsc::channel(16)
}

fn request_of(action: Action) -> StateRequest {
    match action {
        Action::Tell(request) => request,
        Action::Ask(request) => request,
        _ => panic!("not a request to the actor"),
    }
}

fn reply_of(outcome: Outcome) -> StateResponse {
    match outcome {
        Outcome::Reply(response) => response,
        _ => panic!("the actor sent no answer"),
    }
}

fn ids_of(users: &ConnectedUsers) -> Vec<String> {
    (0..users.len()).map(|i| users.user(i).id.clone()).collect()
}

fn texts_of(messages: &[Message]) -> Vec<String> {
    messages.iter().map(|message| message.to_str().unwrap().to_string()).collect()
}

#[test]
fn channels_add_message() {
    let (test_state_sender, mut test_state_receiver) = mpsc::channel::<StateRequest>(64);
    let mut test_state_messages = Vec::with_capacity(5);

    assert_eq!(test_state_messages.len(), 0);

    let test_message = Message::text("test_message");
    let action = add_message(&test_message);

    assert!(matches!(action, Action::Tell(StateRequest::AddMessage(_))));
    assert!(test_state_sender.try_send(request_of(action)).is_ok());

    match test_state_receiver.try_recv().unwrap() {
        StateRequest::AddMessage(test_new_message) => test_state_messages.push(test_new_message),
        _ => unreachable!(),
    }

    assert_eq!(test_state_messages.len(), 1);
    assert_eq!(test_state_messages[0].to_str(), Some("test_message"));
}

#[test]
fn channels_add_user() {
    let (test_state_sender, mut test_state_receiver) = mpsc::channel::<StateRequest>(64);
    let mut test_state_users = ConnectedUsers::with_capacity(5);

    assert_eq!(test_state_users.len(), 0);

    let test_uuid = uuid::Uuid::new_v4().to_string();
    let (test_websocket_sender, test_websocket_receiver) = queue();

    drop(test_websocket_receiver);

    let action = add_user(test_uuid.clone(), test_websocket_sender);

    assert!(matches!(action, Action::Ask(StateRequest::AddUser(_))));
    assert!(test_state_sender.try_send(request_of(action)).is_ok());

    let test_response = match test_state_receiver.try_recv().unwrap() {
        StateRequest::AddUser((test_id, test_channel)) => {
            let test_none = test_state_users.insert(test_id, test_channel);

            assert!(test_none.is_none());

            StateResponse::Done
        }
        _ => unreachable!(),
    };

    assert_eq!(test_state_users.len(), 1);
    assert_eq!(test_state_users.user(0).id, test_uuid);
    assert!(test_response.is_done());
}

#[test]
fn channels_get_messages() {
    let mut test_state_messages = Vec::with_capacity(5);

    assert_eq!(test_state_messages.len(), 0);

    let test_message = Message::text("test_message");

    test_state_messages.push(test_message);

    assert_eq!(test_state_messages.len(), 1);
    assert!(matches!(get_messages(), Action::Ask(StateRequest::GetMessages)));

    let test_response = StateResponse::Messages(test_state_messages.to_vec());
    assert!(test_response.is_messages());

    let test_messages = test_response.into_messages();

    assert_eq!(test_messages.len(), 1);

    for test_message in &test_messages {
        assert_eq!(test_message.to_str().unwrap(), "test_message");
    }
}

#[test]
fn channels_get_users() {
    let mut test_state_users = ConnectedUsers::with_capacity(5);

    assert_eq!(test_state_users.len(), 0);

    let test_uuid = uuid::Uuid::new_v4().to_string();
    let (test_websocket_sender, test_websocket_receiver) = queue();

    drop(test_websocket_receiver);

    assert!(test_state_users.insert(test_uuid, test_websocket_sender).is_none());
    assert_eq!(test_state_users.len(), 1);
    assert!(matches!(get_users(), Action::Ask(StateRequest::GetUsers)));

    let test_response = StateResponse::Users(test_state_users.clone());
    assert!(test_response.is_users());

    let test_users = test_response.into_users();

    assert_eq!(test_users.len(), 1);

    for index in 0..test_users.len() {
        let test_user = test_users.user(index);

        assert_eq!(Uuid::from_str(&test_user.id).expect("test uuid").get_version_num(), 4,);
        assert!(test_user.outbound.is_closed());
    }
}

#[test]
fn requests_carry_their_arguments() {
    assert!(matches!(
        get_user("abc"),
        Action::Ask(StateRequest::GetUser(id)) if id == "abc"
    ));
    assert!(matches!(
        remove_user("abc"),
        Action::Ask(StateRequest::RemoveUser(id)) if id == "abc"
    ));

    let (sender, _receiver) = queue();

    match add_user(String::from("abc"), sender.clone()) {
        Action::Ask(StateRequest::AddUser((id, outbound))) => {
            assert_eq!(id, "abc");
            assert!(outbound.same_channel(&sender));
        }
        _ => panic!("not a registration"),
    }
}

#[test]
fn answers_are_told_apart_by_their_kind() {
    let (sender, _receiver) = queue();
    let done = StateResponse::Done;
    let messages = StateResponse::Messages(vec![Message::text("a")]);
    let users = StateResponse::Users(ConnectedUsers::with_capacity(0));
    let user = StateResponse::User(sender.clone());
    let absent = StateResponse::Absent;

    assert!(done.is_done() && !done.is_users() && !done.is_messages() && !done.is_user());
    assert!(messages.is_messages() && !messages.is_done() && !messages.is_users());
    assert!(users.is_users() && !users.is_done() && !users.is_messages() && !users.is_user());
    assert!(user.is_user() && !user.is_done() && !user.is_users() && !user.is_messages());
    assert!(absent.is_user() && !absent.is_done() && !absent.is_users());

    assert_eq!(messages.into_messages()[0].to_str(), Some("a"));
    assert!(users.into_users().is_empty());
    assert!(user.into_user().unwrap().same_channel(&sender));
    assert!(absent.into_user().is_none());
}

#[test]
fn state_init() {
    let test_state = State::init();

    assert!(test_state.messages().is_empty());
    assert_eq!(test_state.messages().capacity(), 100);

    assert!(test_state.users().is_empty());
    assert_eq!(test_state.users().len(), 0);
    assert!(test_state.is_accepting());
}

#[test]
fn state_add_message() {
    let mut test_state = State::init();

    assert!(test_state.messages().is_empty());
    assert_eq!(test_state.messages().len(), 0);

    let test_message = Message::text("test_message");

    test_state.add_message(test_message);

    assert!(!test_state.messages().is_empty());
    assert_eq!(test_state.messages().len(), 1);
}

#[test]
fn state_add_user() {
    let mut test_state = State::init();

    assert!(test_state.users().is_empty());
    assert_eq!(test_state.users().len(), 0);

    let test_uuid = uuid::Uuid::new_v4().to_string();
    let (test_websocket_sender, test_websocket_receiver) = mpsc::channel(16);

    drop(test_websocket_receiver);

    test_state.add_user(test_uuid, test_websocket_sender);

    assert!(!test_state.users().is_empty());
    assert_eq!(test_state.users().len(), 1);
}

#[test]
fn state_get_messages() {
    let mut test_state = State::init();

    let test_message_one = Message::text("test_message_one");
    let test_message_two = Message::text("test_message_two");
    let test_message_three = Message::text("test_message_three");

    test_state.add_message(test_message_one);
    test_state.add_message(test_message_two);
    test_state.add_message(test_message_three);

    let test_messages = test_state.get_messages();

    assert_eq!(test_messages[0].to_str().unwrap(), "test_message_one");
    assert_eq!(test_messages[1].to_str().unwrap(), "test_message_two");
    assert_eq!(test_messages[2].to_str().unwrap(), "test_message_three");
}

#[test]
fn state_get_users() {
    let mut test_state = State::init();

    assert!(test_state.users().is_empty());
    assert_eq!(test_state.users().len(), 0);

    let test_uuid = uuid::Uuid::new_v4().to_string();
    let (test_websocket_sender, _test_websocket_receiver) = mpsc::channel(16);

    test_state.add_user(test_uuid, test_websocket_sender);

    let test_users = test_state.get_users();

    assert!(!test_users.is_empty());
    assert_eq!(test_users.len(), 1);

    for index in 0..test_users.len() {
        let test_uuid = &test_users.user(index).id;
        let test_websocket_connection = &test_users.user(index).outbound;

        assert_eq!(Uuid::from_str(test_uuid).expect("uuid from &str").get_version_num(), 4);

        assert!(!test_websocket_connection.is_closed());
        assert_eq!(test_websocket_connection.capacity(), 16);
    }
}

#[test]
fn registering_an_id_twice_overwrites() {
    let mut state = State::init();
    let (first, _first_receiver) = queue();
    let (second, _second_receiver) = queue();
    let (other, _other_receiver) = queue();

    state.add_user(String::from("a"), first.clone());
    state.add_user(String::from("b"), other.clone());
    state.add_user(String::from("a"), second.clone());

    assert_eq!(ids_of(state.users()), ["a", "b"]);
    assert!(state.get_user("a").unwrap().same_channel(&second));
    assert!(!state.get_user("a").unwrap().same_channel(&first));
    assert!(state.get_user("b").unwrap().same_channel(&other));
    assert!(state.get_user("c").is_none());
}

#[test]
fn ids_stay_distinct_whatever_is_registered() {
    let mut state = State::init();
    let names = ["a", "b", "a", "c", "b", "b", "d", "a", "", ""];

    for name in names {
        let (sender, _receiver) = queue();

        state.add_user(String::from(name), sender);

        let mut ids = ids_of(state.users());
        let count = ids.len();

        ids.sort();
        ids.dedup();

        assert_eq!(ids.len(), count);
    }

    assert_eq!(ids_of(state.users()), ["a", "b", "c", "d", ""]);
}

#[test]
fn removing_keeps_the_others_in_order() {
    let mut state = State::init();

    for name in ["a", "b", "c"] {
        let (sender, _receiver) = queue();

        state.add_user(String::from(name), sender);
    }

    state.remove_user("b");

    assert_eq!(ids_of(state.users()), ["a", "c"]);

    state.remove_user("b");
    state.remove_user("zzz");

    assert_eq!(ids_of(state.users()), ["a", "c"]);
}

#[test]
fn history_is_what_was_submitted_in_order() {
    let mut state = State::init();
    let submitted = ["one", "two", "", "two", "three"];
    let mut earlier: Vec<Vec<String>> = Vec::new();

    for (count, text) in submitted.iter().enumerate() {
        earlier.push(texts_of(&state.get_messages()));
        assert!(matches!(
            state.process(StateRequest::AddMessage(Message::text(text))),
            Outcome::NoReply
        ));
        assert_eq!(texts_of(&state.get_messages()), submitted[..count + 1]);
    }

    for (count, snapshot) in earlier.iter().enumerate() {
        assert_eq!(snapshot[..], submitted[..count]);
    }
}

#[test]
fn a_snapshot_does_not_follow_the_state() {
    let mut state = State::init();
    let (sender, _receiver) = queue();

    state.add_user(String::from("a"), sender.clone());
    state.add_message(Message::text("one"));

    let users = state.get_users();
    let messages = state.get_messages();

    state.add_user(String::from("b"), sender.clone());
    state.add_user(String::from("a"), sender);
    state.remove_user("a");
    state.add_message(Message::text("two"));

    assert_eq!(ids_of(&users), ["a"]);
    assert_eq!(texts_of(&messages), ["one"]);
    assert_eq!(ids_of(state.users()), ["b"]);
    assert_eq!(texts_of(state.messages()), ["one", "two"]);
}

#[test]
fn process_answers_each_request() {
    let mut state = State::init();
    let (sender, _receiver) = queue();

    assert!(matches!(
        reply_of(state.process(request_of(add_user(String::from("a"), sender.clone())))),
        StateResponse::Done
    ));
    assert!(matches!(
        state.process(request_of(add_message(&Message::text("hi")))),
        Outcome::NoReply
    ));

    match reply_of(state.process(request_of(get_users()))) {
        StateResponse::Users(users) => assert_eq!(ids_of(&users), ["a"]),
        _ => panic!("not a registry snapshot"),
    }
    match reply_of(state.process(request_of(get_messages()))) {
        StateResponse::Messages(messages) => assert_eq!(texts_of(&messages), ["hi"]),
        _ => panic!("not a history snapshot"),
    }
    match reply_of(state.process(request_of(get_user("a")))) {
        StateResponse::User(outbound) => assert!(outbound.same_channel(&sender)),
        _ => panic!("not a handle"),
    }

    assert!(matches!(
        reply_of(state.process(request_of(get_user("b")))),
        StateResponse::Absent
    ));
    assert!(matches!(
        reply_of(state.process(request_of(remove_user("b")))),
        StateResponse::Done
    ));
    assert!(matches!(
        reply_of(state.process(request_of(remove_user("a")))),
        StateResponse::Done
    ));
    assert!(state.users().is_empty());
    assert!(matches!(
        reply_of(state.process(request_of(get_user("a")))),
        StateResponse::Absent
    ));
}

#[test]
fn shutdown_stops_the_actor_once() {
    let mut state = State::init();

    assert!(state.is_accepting());
    assert!(matches!(state.process(StateRequest::Shutdown), Outcome::Stop));
    assert!(!state.is_accepting());
    assert!(matches!(state.process(StateRequest::Shutdown), Outcome::NoReply));
    assert!(matches!(state.process(StateRequest::Shutdown), Outcome::NoReply));
    assert!(!state.is_accepting());
    assert!(!state.shutdown());
}

#[test]
fn requests_in_flight_are_still_processed_after_shutdown() {
    let mut state = State::init();
    let (sender, _receiver) = queue();

    assert!(state.shutdown());

    state.process(StateRequest::AddMessage(Message::text("late")));
    state.process(StateRequest::AddUser((String::from("a"), sender)));

    assert_eq!(texts_of(state.messages()), ["late"]);
    assert_eq!(ids_of(state.users()), ["a"]);
    assert!(!state.is_accepting());
}
