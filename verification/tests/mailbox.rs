use actor_recipe::actor::{ResourceActor, ResourceRequest};
use actor_recipe::client::{ResourceClient, Submission};
use actor_recipe::error::FrameworkError;
use actor_recipe::mailbox::{deliver, Delivery};
use actor_recipe::user::{User, UserCreate, UserError};
use tokio::sync::mpsc;
use tokio::sync::mpsc::error::TrySendError;
use tokio::sync::oneshot;

fn create_mock_client(buffer_size: usize) -> (ResourceClient<User>, mpsc::Receiver<ResourceRequest<User>>) {
    let (sender, receiver) = mpsc::channel(buffer_size);
    (ResourceClient::new(sender), receiver)
}

fn test_user() -> UserCreate {
    UserCreate { name: "Test".to_string(), email: "test@example.com".to_string() }
}

#[test]
fn test_mock_client() {
    let (client, mut receiver) = create_mock_client(10);

    // Test Create
    let (request, mut response) = client.create_request(test_user());
    assert!(client.sender().try_send(request).is_ok());

    let (payload, responder) = match receiver.try_recv() {
        Ok(ResourceRequest::Create { payload, respond_to }) => (payload, respond_to),
        _ => panic!("Expected Create request"),
    };
    assert_eq!(payload.name, "Test");
    responder.send(Ok("user_1".to_string())).unwrap();

    let result = Submission::Answered(response.try_recv().unwrap()).outcome();
    assert_eq!(result, Ok("user_1".to_string()));
}

#[test]
fn test_user_service_internal_state() {
    let (mut actor, client) = ResourceActor::<User, _>::new(10, || "user_1".to_string());

    // Initially should have 0 users
    assert_eq!(actor.len(), 0);

    // Create a user
    let user = User::new("Test User", "test@example.com");
    let (request, mut response) = client.create_request(user.into_create());
    assert!(client.sender().try_send(request).is_ok());
    let msg = actor.mailbox().try_recv().unwrap();
    assert_eq!(actor.handle_request(msg), Delivery::Delivered);
    let user_id = UserError::relay(Submission::Answered(response.try_recv().unwrap()).outcome());
    assert_eq!(user_id, Ok("user_1".to_string()));

    // Now should have 1 user
    assert_eq!(actor.len(), 1);
}

#[test]
fn a_full_mailbox_holds_the_second_request_back() {
    let (mut actor, client) = ResourceActor::<User, _>::new(1, || "u1".to_string());
    let second_client = client.clone();

    let (first, mut first_reply) = client.create_request(test_user());
    assert!(client.sender().try_send(first).is_ok());

    // The mailbox is at capacity: a second request does not get in.
    let (second, mut second_reply) = second_client.get_request("u1".to_string());
    let second = match second_client.sender().try_send(second) {
        Err(TrySendError::Full(request)) => request,
        _ => panic!("the mailbox has room for one request only"),
    };

    // Once the actor has taken the first request, the second gets in.
    let msg = actor.mailbox().try_recv().unwrap();
    assert!(second_client.sender().try_send(second).is_ok());
    assert_eq!(actor.handle_request(msg), Delivery::Delivered);
    assert_eq!(first_reply.try_recv().unwrap(), Ok("u1".to_string()));

    let msg = actor.mailbox().try_recv().unwrap();
    assert_eq!(actor.handle_request(msg), Delivery::Delivered);
    let found = second_reply.try_recv().unwrap().unwrap().unwrap();
    assert_eq!(found.name, "Test");
    assert!(actor.mailbox().try_recv().is_err());
}

#[test]
fn requests_are_handled_in_arrival_order() {
    let (mut actor, client) = ResourceActor::<User, _>::new(4, || "u1".to_string());
    let (create, mut created) = client.create_request(test_user());
    let (get, mut got) = client.get_request("u1".to_string());
    let (delete, mut deleted) = client.delete_request("u1".to_string());
    let (again, mut got_again) = client.get_request("u1".to_string());
    for request in [create, get, delete, again] {
        assert!(client.sender().try_send(request).is_ok());
    }
    let mut handled = 0;
    while let Ok(msg) = actor.mailbox().try_recv() {
        assert_eq!(actor.handle_request(msg), Delivery::Delivered);
        handled += 1;
    }
    assert_eq!(handled, 4);
    assert_eq!(created.try_recv().unwrap(), Ok("u1".to_string()));
    assert_eq!(got.try_recv().unwrap().unwrap().unwrap().name, "Test");
    assert_eq!(deleted.try_recv().unwrap(), Ok(()));
    assert_eq!(got_again.try_recv().unwrap(), Ok(None));
}

#[test]
fn a_reply_that_nobody_awaits_is_dropped_and_the_work_is_done() {
    let (mut actor, client) = ResourceActor::<User, _>::new(4, || "u1".to_string());
    let (request, response) = client.create_request(test_user());
    drop(response);
    assert_eq!(actor.handle_request(request), Delivery::Dropped);
    // The operation was performed all the same.
    assert_eq!(actor.len(), 1);
    assert_eq!(actor.get(&"u1".to_string()).unwrap().unwrap().name, "Test");
}

#[test]
fn deliver_hands_the_value_over() {
    let (sender, mut receiver) = oneshot::channel::<u32>();
    assert_eq!(deliver(sender, 7), Delivery::Delivered);
    assert_eq!(receiver.try_recv(), Ok(7));

    let (sender, receiver) = oneshot::channel::<u32>();
    drop(receiver);
    assert_eq!(deliver(sender, 7), Delivery::Dropped);
}

#[test]
fn a_request_that_the_actor_drops_is_never_answered() {
    let (client, mut receiver) = create_mock_client(2);
    let (request, mut response) = client.get_request("u1".to_string());
    assert!(client.sender().try_send(request).is_ok());
    // The actor takes the request and goes away without replying.
    drop(receiver.try_recv().unwrap());
    assert!(response.try_recv().is_err());
    let outcome: Result<Option<User>, FrameworkError> = Submission::Unanswered.outcome();
    assert_eq!(outcome, Err(FrameworkError::ActorDropped));
}

#[test]
fn a_stopped_actor_takes_no_request() {
    let (client, receiver) = create_mock_client(2);
    drop(receiver);
    let (request, _response) = client.get_request("u1".to_string());
    assert!(matches!(client.sender().try_send(request), Err(TrySendError::Closed(_))));
    let outcome: Result<Option<User>, FrameworkError> = Submission::Refused.outcome();
    assert_eq!(outcome, Err(FrameworkError::ActorClosed));
}

#[test]
fn an_answer_reaches_the_caller_unchanged() {
    let ok: Result<u32, FrameworkError> = Submission::Answered(Ok(3)).outcome();
    assert_eq!(ok, Ok(3));
    let failed: Result<u32, FrameworkError> =
        Submission::Answered(Err(FrameworkError::NotFound("x".to_string()))).outcome();
    assert_eq!(failed, Err(FrameworkError::NotFound("x".to_string())));
    let custom: Result<u32, FrameworkError> =
        Submission::Answered(Err(FrameworkError::Custom("no".to_string()))).outcome();
    assert_eq!(custom, Err(FrameworkError::Custom("no".to_string())));
}

#[test]
fn each_request_carries_its_operation() {
    let (client, _receiver) = create_mock_client(2);
    let (request, _) = client.create_request(test_user());
    assert!(matches!(request, ResourceRequest::Create { ref payload, .. } if payload.email == "test@example.com"));
    let (request, _) = client.get_request("a".to_string());
    assert!(matches!(request, ResourceRequest::Get { ref id, .. } if id == "a"));
    let patch = actor_recipe::user::UserPatch { name: Some("B".to_string()), email: None };
    let (request, _) = client.update_request("b".to_string(), patch);
    assert!(matches!(
        request,
        ResourceRequest::Update { ref id, ref patch, .. }
            if id == "b" && patch.name.as_deref() == Some("B") && patch.email.is_none()
    ));
    let (request, _) = client.delete_request("c".to_string());
    assert!(matches!(request, ResourceRequest::Delete { ref id, .. } if id == "c"));
    let (request, _) = client.action_request("d".to_string(), ());
    assert!(matches!(request, ResourceRequest::Action { ref id, .. } if id == "d"));
}

#[test]
fn a_send_that_gives_the_value_back_found_nobody() {
    assert_eq!(Delivery::of::<u32>(Ok(())), Delivery::Delivered);
    assert_eq!(Delivery::of(Err(7u32)), Delivery::Dropped);
    assert_eq!(Delivery::of(Err("reply".to_string())), Delivery::Dropped);
}

#[test]
fn the_mailbox_is_the_end_that_the_clients_write_to() {
    let (mut actor, client) = ResourceActor::<User, _>::new(2, || "u1".to_string());
    assert!(actor.mailbox().try_recv().is_err());
    let (request, _response) = client.get_request("u1".to_string());
    assert!(client.sender().try_send(request).is_ok());
    // What was taken through the accessor is gone from the actor's mailbox.
    assert!(matches!(actor.mailbox().try_recv(), Ok(ResourceRequest::Get { ref id, .. }) if id == "u1"));
    assert!(actor.mailbox().try_recv().is_err());
    // Closing it through the accessor closes the actor's mailbox.
    actor.mailbox().close();
    let (request, _response) = client.get_request("u1".to_string());
    assert!(matches!(client.sender().try_send(request), Err(TrySendError::Closed(_))));
}
