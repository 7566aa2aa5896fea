use tg_userbot::action::Action;
use tg_userbot::names::{Channel, Chat, FormatName, Group, User};
use tg_userbot::router::{EventRun, LoopStep, Poll, Router};
use tg_userbot::sign_in::{SignIn, SignInOutcome, SignInStep};

#[test]
fn router_dispatches_until_stop() {
    let mut r = Router::new();
    assert!(r.wants_update());
    assert_eq!(r.on_poll(Poll::NewMessage), LoopStep::Dispatch);
    assert_eq!(r.on_poll(Poll::OtherUpdate), LoopStep::Skip);
    assert!(r.wants_update());
    assert_eq!(r.on_poll(Poll::StopRequested), LoopStep::Stop);
    assert!(!r.wants_update());
    assert_eq!(r.on_poll(Poll::NewMessage), LoopStep::Stop);
    assert!(!r.wants_update());
}

#[test]
fn router_interrupt_and_close() {
    let mut r = Router::new();
    assert_eq!(r.on_poll(Poll::Interrupted), LoopStep::Stop);
    assert!(!r.wants_update());
    let mut r = Router::new();
    assert_eq!(r.on_poll(Poll::Closed), LoopStep::Stop);
    assert!(!r.wants_update());
}

#[test]
fn router_logs_update_failure() {
    let mut r = Router::new();
    assert_eq!(
        r.on_poll(Poll::Failed("timeout".to_string())),
        LoopStep::LogAndStop("Update loop: timeout".to_string())
    );
    assert!(!r.wants_update());
}

#[test]
fn empty_plan_attempts_nothing() {
    let mut run = EventRun::new(vec![]);
    assert_eq!(run.next_action(), None);
}

#[test]
fn run_hands_out_actions_in_order() {
    let mut run = EventRun::new(vec![
        vec![Action::Strategia, Action::DeleteTrigger],
        vec![Action::Send("x".to_string())],
    ]);
    assert_eq!(run.next_action(), Some(Action::Strategia));
    assert_eq!(run.next_action(), Some(Action::DeleteTrigger));
    assert_eq!(run.next_action(), Some(Action::Send("x".to_string())));
    assert_eq!(run.next_action(), None);
}

#[test]
fn failure_abandons_only_its_rule() {
    let mut run = EventRun::new(vec![
        vec![Action::Strategia, Action::DeleteTrigger],
        vec![],
        vec![Action::Send("x".to_string())],
    ]);
    assert_eq!(run.next_action(), Some(Action::Strategia));
    assert_eq!(run.abandon("flood wait"), "Message handler: flood wait");
    assert_eq!(run.next_action(), Some(Action::Send("x".to_string())));
    assert_eq!(run.next_action(), None);
}

#[test]
fn sign_in_happy_path() {
    let mut s = SignIn::new();
    assert_eq!(s.prompt(), Some("Phone: "));
    s.on_outcome(SignInOutcome::Accepted);
    assert_eq!(s.prompt(), Some("Code: "));
    s.on_outcome(SignInOutcome::Accepted);
    assert_eq!(s.step(), SignInStep::Done);
    assert_eq!(s.prompt(), None);
}

#[test]
fn sign_in_retries() {
    let mut s = SignIn::new();
    s.on_outcome(SignInOutcome::Refused);
    assert_eq!(s.step(), SignInStep::AskPhone);
    s.on_outcome(SignInOutcome::Accepted);
    s.on_outcome(SignInOutcome::Refused);
    assert_eq!(s.step(), SignInStep::AskCode);
    s.on_outcome(SignInOutcome::PasswordRequired);
    assert_eq!(s.prompt(), Some("Password: "));
    s.on_outcome(SignInOutcome::Refused);
    assert_eq!(s.step(), SignInStep::AskCode);
    s.on_outcome(SignInOutcome::PasswordRequired);
    s.on_outcome(SignInOutcome::Accepted);
    assert_eq!(s.step(), SignInStep::Done);
}

#[test]
fn user_names() {
    let u = User { full_name: "Jan Kowalski".to_string(), username: Some("jk".to_string()), id: 5 };
    assert_eq!(u.format_name(), "Jan Kowalski (@jk)");
    let u = User { full_name: "Jan".to_string(), username: None, id: 5 };
    assert_eq!(u.format_name(), "Jan (5)");
    let u = User { full_name: String::new(), username: Some("jk".to_string()), id: 5 };
    assert_eq!(u.format_name(), "@jk");
    let u = User { full_name: String::new(), username: None, id: 77 };
    assert_eq!(u.format_name(), "77");
}

#[test]
fn chat_names() {
    let g = Group { title: "Rodzina".to_string(), id: -12 };
    assert_eq!(g.format_name(), "Rodzina (-12)");
    let c = Channel { title: "Krajobrazy".to_string(), id: -1001 };
    assert_eq!(c.format_name(), "Krajobrazy (-1001)");
    let c = Chat { name: "Logi".to_string(), id: 3 };
    assert_eq!(c.format_name(), "Logi (3)");
}
