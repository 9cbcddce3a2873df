use presence_sync::command::{interpret_message, ChatAction, PREFIX};
use presence_sync::presenter::{announcement, render_activity, Presentation, Presenter};
use presence_sync::record::SinkCall;

fn interpret(content: &str) -> ChatAction {
    interpret_message(content.as_bytes())
}

fn say(text: &str) -> ChatAction {
    ChatAction::Say(text.as_bytes().to_vec())
}

fn reply(text: &str) -> ChatAction {
    ChatAction::Reply(text.as_bytes().to_vec())
}

#[test]
fn prefix_is_the_exclamation_mark() {
    assert_eq!(PREFIX, b'!');
}

#[test]
fn echo_says_its_text() {
    assert_eq!(interpret("!echo hello"), say("hello"));
    assert_eq!(interpret("!echo hello there  world"), say("hello there  world"));
    assert_eq!(interpret("!echo  two"), say(" two"));
}

#[test]
fn echo_without_a_space_is_ignored() {
    assert_eq!(interpret("!echo"), ChatAction::Ignore);
}

#[test]
fn echo_with_a_space_and_no_text_says_nothing_at_all() {
    assert_eq!(interpret("!echo "), say(""));
}

#[test]
fn test_replies_with_its_text() {
    assert_eq!(interpret("!test one two"), reply("one two"));
    assert_eq!(interpret("!test"), reply(""));
    assert_eq!(interpret("!test "), reply(""));
}

#[test]
fn other_messages_are_ignored() {
    assert_eq!(interpret(""), ChatAction::Ignore);
    assert_eq!(interpret("!"), ChatAction::Ignore);
    assert_eq!(interpret("echo hello"), ChatAction::Ignore);
    assert_eq!(interpret(" !echo hello"), ChatAction::Ignore);
    assert_eq!(interpret("!Echo hello"), ChatAction::Ignore);
    assert_eq!(interpret("!echoes hello"), ChatAction::Ignore);
    assert_eq!(interpret("!ech hello"), ChatAction::Ignore);
    assert_eq!(interpret("! echo hello"), ChatAction::Ignore);
    assert_eq!(interpret("!help"), ChatAction::Ignore);
    assert_eq!(interpret("\u{e9}cho hello"), ChatAction::Ignore);
}

#[test]
fn text_keeps_bytes_that_are_not_ascii() {
    assert_eq!(interpret("!echo caf\u{e9} \u{1f600}"), say("caf\u{e9} \u{1f600}"));
}

#[test]
fn announcement_names_the_liveness() {
    assert_eq!(announcement(true), b"Server offline".to_vec());
    assert_eq!(announcement(false), b"Server online".to_vec());
}

#[test]
fn activity_shows_the_call() {
    assert_eq!(render_activity(SinkCall::SetOffline), b"Server offline".to_vec());
    assert_eq!(render_activity(SinkCall::SetOnline(0)), b"Server online 0/48".to_vec());
    assert_eq!(render_activity(SinkCall::SetOnline(7)), b"Server online 7/48".to_vec());
    assert_eq!(render_activity(SinkCall::SetOnline(48)), b"Server online 48/48".to_vec());
    assert_eq!(
        render_activity(SinkCall::SetOnline(u64::MAX)),
        b"Server online 18446744073709551615/48".to_vec()
    );
}

#[test]
fn first_call_is_always_announced() {
    let presenter = Presenter::new();
    assert_eq!(
        presenter.present(SinkCall::SetOffline),
        Presentation {
            notice: Some(b"Server offline".to_vec()),
            activity: b"Server offline".to_vec(),
        }
    );
    assert_eq!(
        presenter.present(SinkCall::SetOnline(3)),
        Presentation {
            notice: Some(b"Server online".to_vec()),
            activity: b"Server online 3/48".to_vec(),
        }
    );
}

#[test]
fn notice_comes_only_when_the_liveness_changes() {
    let mut presenter = Presenter::new();
    presenter.confirm(SinkCall::SetOnline(3));
    assert_eq!(
        presenter.present(SinkCall::SetOnline(4)),
        Presentation { notice: None, activity: b"Server online 4/48".to_vec() }
    );
    assert_eq!(presenter.present(SinkCall::SetOnline(3)).notice, None);
    assert_eq!(
        presenter.present(SinkCall::SetOffline).notice,
        Some(b"Server offline".to_vec())
    );
    presenter.confirm(SinkCall::SetOffline);
    assert_eq!(presenter.present(SinkCall::SetOffline).notice, None);
    assert_eq!(
        presenter.present(SinkCall::SetOnline(0)).notice,
        Some(b"Server online".to_vec())
    );
}

#[test]
fn failed_call_is_announced_again() {
    let mut presenter = Presenter::new();
    presenter.confirm(SinkCall::SetOnline(1));
    let first = presenter.present(SinkCall::SetOffline);
    let again = presenter.present(SinkCall::SetOffline);
    assert_eq!(first, again);
    assert_eq!(again.notice, Some(b"Server offline".to_vec()));
}
