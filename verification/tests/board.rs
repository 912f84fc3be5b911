use post_it::actor::handle_command;
use post_it::handler::create_status;
use post_it::handler::list_response;
use post_it::handler::plan_create;
use post_it::handler::CreateOutcome;
use post_it::handler::ListOutcome;
use post_it::handler::STATUS_BAD_REQUEST;
use post_it::handler::STATUS_METHOD_NOT_ALLOWED;
use post_it::handler::STATUS_OK;
use post_it::router::hello;
use post_it::router::route;
use post_it::router::Route;
use post_it::Command;
use post_it::InMemoryStateStore;
use post_it::Message;
use post_it::Reply;

#[test]
fn test_hello_world() {
    assert_eq!(route("GET", "/"), Route::Hello);
    assert_eq!("Hello, World!", hello());
    assert_eq!(13, hello().len());
}

#[test]
fn test_create_message() {
    let mut store: InMemoryStateStore = Vec::new();
    let msg = Message::new("This is a message");

    let cmd = plan_create(msg).expect("Failed to post message.");
    let reply = handle_command(&mut store, cmd);
    let outcome = match reply {
        Reply::Created(r) => CreateOutcome::Answered(r),
        Reply::Listing(_) => unreachable!(),
    };

    assert_eq!(STATUS_OK, create_status(&outcome));
    assert_eq!(1, store.len());
}

#[test]
fn test_create_message_literal() {
    let mut store: InMemoryStateStore = Vec::new();
    let msg = Message::new("this is a message");

    let cmd = plan_create(msg).expect("Failed to post message.");
    let reply = handle_command(&mut store, cmd);
    let outcome = match reply {
        Reply::Created(r) => CreateOutcome::Answered(r),
        Reply::Listing(_) => unreachable!(),
    };

    assert_eq!(STATUS_OK, create_status(&outcome));
}

#[test]
fn test_empty_message_content() {
    let msg = Message::new("");

    let plan = plan_create(msg);

    assert!(plan.is_none());
    assert_eq!(STATUS_BAD_REQUEST, create_status(&CreateOutcome::Rejected));
}

#[test]
fn test_whitespace_only_message_content() {
    let msg = Message::new("       ");

    let plan = plan_create(msg);

    assert!(plan.is_none());
    assert_eq!(STATUS_BAD_REQUEST, create_status(&CreateOutcome::Rejected));
}

#[test]
fn test_unsupported_http_method() {
    assert_eq!(route("PUT", "/api/message"), Route::MethodNotAllowed);
    assert_eq!(405, STATUS_METHOD_NOT_ALLOWED);
}

#[test]
fn test_list_message() {
    let mut store: InMemoryStateStore = Vec::new();
    let msg = Message::new("This is a message");
    let another_msg = Message::new("This is another message");

    let cmd = plan_create(Message::new(msg.content())).expect("Failed to post message.");
    handle_command(&mut store, cmd);
    let cmd = plan_create(Message::new(another_msg.content())).expect("Failed to post message.");
    handle_command(&mut store, cmd);

    let reply = handle_command(&mut store, Command::List);
    let outcome = match reply {
        Reply::Listing(r) => ListOutcome::Answered(r),
        Reply::Created(_) => unreachable!(),
    };
    let (status, response_data) = list_response(outcome);

    assert_eq!(STATUS_OK, status);
    assert_eq!(2, response_data.len());
    assert!(response_data.contains(&msg.content().to_string()));
    assert!(response_data.contains(&another_msg.content().to_string()));
}

#[test]
fn test_lst_message_empty() {
    let mut store: InMemoryStateStore = Vec::new();

    let reply = handle_command(&mut store, Command::List);
    let outcome = match reply {
        Reply::Listing(r) => ListOutcome::Answered(r),
        Reply::Created(_) => unreachable!(),
    };
    let (status, response_data) = list_response(outcome);

    assert_eq!(STATUS_OK, status);
    assert_eq!(0, response_data.len());
}
