use actix_actor_expect::{ActorExpect, CallRecorder, MailboxError};

#[derive(Clone, Debug, PartialEq)]
enum Command {
    Hello,
    Dunno,
    Echo(String),
}

type StandIn = ActorExpect<Command, String, String>;

fn echo(text: &str) -> Command {
    Command::Echo(text.to_string())
}

fn text(s: &str) -> String {
    s.to_string()
}

#[test]
fn process_messaging_answers_the_expected_message() {
    let mut log = CallRecorder::new();
    let result =
        StandIn::process_messaging(&mut log, echo("x"), &echo("x"), text("hit"), Some(text("miss")));
    assert_eq!(result, Some(Ok(text("hit"))));
    assert_eq!(log.count(), 1);
    assert_eq!(log.count_matching(&echo("x")), 1);
}

#[test]
fn process_messaging_answers_another_message_with_the_fallback() {
    let mut log = CallRecorder::new();
    let result = StandIn::process_messaging(
        &mut log,
        Command::Hello,
        &echo("x"),
        text("hit"),
        Some(text("miss")),
    );
    assert_eq!(result, Some(Ok(text("miss"))));
    assert_eq!(log.count(), 1);
    assert_eq!(log.count_matching(&Command::Hello), 1);
    assert_eq!(log.count_matching(&echo("x")), 0);
}

#[test]
fn process_messaging_without_fallback_gives_no_response() {
    let mut log = CallRecorder::new();
    let result = StandIn::process_messaging(&mut log, echo("y"), &echo("x"), text("hit"), None);
    assert_eq!(result, None);
    assert_eq!(log.count(), 1);
    assert_eq!(log.count_matching(&echo("y")), 1);
}

#[test]
fn process_messaging_without_fallback_still_answers_the_expected_message() {
    let mut log = CallRecorder::new();
    let result =
        StandIn::process_messaging(&mut log, Command::Dunno, &Command::Dunno, text("hit"), None);
    assert_eq!(result, Some(Ok(text("hit"))));
    assert_eq!(log.count(), 1);
}

#[test]
fn process_messaging_appends_to_what_the_log_holds() {
    let mut log = CallRecorder::new();
    log.record(Command::Hello);
    log.record(Command::Hello);
    let _ = StandIn::process_messaging(&mut log, Command::Dunno, &Command::Hello, text("a"), None);
    let _ = StandIn::process_messaging(&mut log, Command::Hello, &Command::Hello, text("a"), None);
    assert_eq!(log.count(), 4);
    assert_eq!(log.count_matching(&Command::Hello), 3);
    assert_eq!(log.count_matching(&Command::Dunno), 1);
}

#[test]
fn every_message_counts_whether_it_matched_or_not() {
    let mut stand_in = StandIn::expect_send(Command::Hello, text("hi"), Some(text("?")));
    let messages = vec![
        Command::Hello,
        Command::Dunno,
        echo("a"),
        Command::Hello,
        echo("b"),
        Command::Dunno,
        Command::Dunno,
    ];
    let mut sent = 0;
    for message in messages {
        assert_eq!(stand_in.total_calls(), sent);
        assert!(stand_in.send(message).is_ok());
        sent += 1;
    }
    assert_eq!(stand_in.total_calls(), 7);
    assert_eq!(stand_in.calls_of_variant(Command::Hello), 2);
    assert_eq!(stand_in.calls_of_variant(Command::Dunno), 3);
    assert_eq!(stand_in.calls_of_variant(echo("a")), 1);
    assert_eq!(stand_in.calls_of_variant(echo("b")), 1);
    assert_eq!(stand_in.calls_of_variant(echo("c")), 0);
}

#[test]
fn echo_hello_dunno_get_message_miss_miss() {
    let mut stand_in = StandIn::expect_send(echo("Message"), text("Message"), Some(text("Miss")));

    assert_eq!(stand_in.send(echo("Message")), Ok(Ok(text("Message"))));
    assert_eq!(stand_in.send(Command::Hello), Ok(Ok(text("Miss"))));
    assert_eq!(stand_in.send(Command::Dunno), Ok(Ok(text("Miss"))));

    assert_eq!(stand_in.total_calls(), 3);
    assert_eq!(stand_in.calls_of_variant(echo("Message")), 1);
    assert_eq!(stand_in.calls_of_variant(Command::Hello), 1);
    assert_eq!(stand_in.calls_of_variant(Command::Dunno), 1);
}

#[test]
fn fresh_stand_in_has_no_calls() {
    let stand_in = StandIn::expect_send(Command::Hello, text("Message"), Some(text("Miss")));
    assert_eq!(stand_in.total_calls(), 0);
    assert_eq!(stand_in.calls_of_variant(Command::Hello), 0);

    let stand_in = StandIn::expect_send(Command::Hello, text("Message"), None);
    assert_eq!(stand_in.total_calls(), 0);

    let stand_in = StandIn::placeholder();
    assert_eq!(stand_in.total_calls(), 0);
    assert_eq!(stand_in.calls_of_variant(Command::Hello), 0);
}

#[test]
fn with_fallback_each_send_adds_exactly_one_call() {
    let mut stand_in = StandIn::expect_send(Command::Hello, text("O"), Some(text("D")));

    assert_eq!(stand_in.send(Command::Hello), Ok(Ok(text("O"))));
    assert_eq!(stand_in.total_calls(), 1);
    assert_eq!(stand_in.send(Command::Dunno), Ok(Ok(text("D"))));
    assert_eq!(stand_in.total_calls(), 2);
    assert_eq!(stand_in.send(echo("Hello")), Ok(Ok(text("D"))));
    assert_eq!(stand_in.total_calls(), 3);
    assert_eq!(stand_in.send(Command::Hello), Ok(Ok(text("O"))));
    assert_eq!(stand_in.total_calls(), 4);
}

#[test]
fn the_expected_message_is_matched_by_value() {
    let mut stand_in = StandIn::expect_send(echo("same"), text("O"), Some(text("D")));
    let built_elsewhere = Command::Echo(["sa", "me"].concat());
    assert_eq!(stand_in.send(built_elsewhere), Ok(Ok(text("O"))));
    assert_eq!(stand_in.send(echo("Same")), Ok(Ok(text("D"))));
    assert_eq!(stand_in.send(echo("")), Ok(Ok(text("D"))));
}

#[test]
fn without_fallback_the_expected_message_is_answered_again_and_again() {
    let mut stand_in = StandIn::expect_send(Command::Hello, text("O"), None);
    for calls in 1..=4 {
        assert_eq!(stand_in.send(Command::Hello), Ok(Ok(text("O"))));
        assert_eq!(stand_in.total_calls(), calls);
    }
}

#[test]
fn without_fallback_a_mismatch_closes_the_mailbox_for_good() {
    let mut stand_in = StandIn::expect_send(Command::Hello, text("O"), None);

    assert_eq!(stand_in.send(Command::Hello), Ok(Ok(text("O"))));
    assert_eq!(stand_in.send(Command::Dunno), Err(MailboxError::Closed));
    assert_eq!(stand_in.total_calls(), 2);

    assert_eq!(stand_in.send(Command::Hello), Err(MailboxError::Closed));
    assert_eq!(stand_in.send(Command::Dunno), Err(MailboxError::Closed));
    assert_eq!(stand_in.send(echo("x")), Err(MailboxError::Closed));

    assert_eq!(stand_in.total_calls(), 2);
    assert_eq!(stand_in.calls_of_variant(Command::Hello), 1);
    assert_eq!(stand_in.calls_of_variant(Command::Dunno), 1);
    assert_eq!(stand_in.calls_of_variant(echo("x")), 0);
}

#[test]
fn placeholder_fails_every_send_and_records_nothing() {
    let mut stand_in = StandIn::placeholder();

    assert_eq!(stand_in.send(Command::Hello), Err(MailboxError::Closed));
    assert_eq!(stand_in.total_calls(), 0);
    assert_eq!(stand_in.send(Command::Hello), Err(MailboxError::Closed));
    assert_eq!(stand_in.send(echo("Message")), Err(MailboxError::Closed));
    assert_eq!(stand_in.total_calls(), 0);
    assert_eq!(stand_in.calls_of_variant(Command::Hello), 0);
    assert_eq!(stand_in.calls_of_variant(echo("Message")), 0);
}

#[test]
fn mailbox_error_describes_itself() {
    assert_eq!(MailboxError::Closed.describe(), "MailboxError(Mailbox has closed)");
    assert_eq!(MailboxError::Closed, MailboxError::Closed.clone());
    assert_eq!(format!("{:?}", MailboxError::Closed), "Closed");
}

#[test]
fn responses_are_clones_of_what_was_configured() {
    let mut stand_in =
        ActorExpect::<u8, Vec<u8>, ()>::expect_send(1, vec![1, 2, 3], Some(vec![]));
    let mut first = stand_in.send(1).unwrap().unwrap();
    first.push(4);
    assert_eq!(first, vec![1, 2, 3, 4]);
    assert_eq!(stand_in.send(1), Ok(Ok(vec![1, 2, 3])));
    assert_eq!(stand_in.send(2), Ok(Ok(vec![])));
}
