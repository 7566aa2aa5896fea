use tg_userbot::action::Action;
use tg_userbot::handler::{corrections, Event, Handler, Identities, Media, Peer};

fn ids() -> Identities {
    Identities {
        operator: 1,
        zenon: 2,
        crash: 3,
        karcewicz: 4,
        polskie_krajobrazy: -1005,
        bawialnia: -1006,
        logs: -1007,
    }
}

fn event(sender: Option<i64>, chat: i64, text: &str) -> Event {
    Event { sender, chat, text: text.to_string(), media: vec![], forward_from: None }
}

fn reply(t: &str) -> Action {
    Action::Reply(t.to_string())
}

#[test]
fn unmatched_event_has_empty_plan() {
    let h = Handler::new(ids());
    assert!(h.on_message(&event(Some(99), 50, "hello")).is_empty());
    assert!(h.on_message(&event(Some(1), 50, "ping")).is_empty());
    assert!(h.on_message(&event(Some(2), 50, "no link here")).is_empty());
    assert!(h.on_message(&event(Some(3), 50, "obejrzyj")).is_empty());
    assert!(h.on_message(&event(Some(4), 50, "")).is_empty());
}

#[test]
fn operator_commands() {
    let h = Handler::new(ids());
    assert_eq!(h.invoke_command("ping", 50), vec![Action::DeleteTrigger]);
    assert_eq!(h.invoke_command("stop", 50), vec![Action::DeleteTrigger, Action::Shutdown]);
    assert_eq!(h.invoke_command("id", -100123), vec![Action::Edit("-100123".to_string())]);
    assert_eq!(h.invoke_command("long ab", 50), vec![Action::Edit("a b".to_string())]);
    assert_eq!(h.invoke_command("space a b", 50), vec![Action::Edit("a   b".to_string())]);
    assert_eq!(
        h.invoke_command("long e\u{301}", 50),
        vec![Action::Edit("e\u{301}".to_string())]
    );
    assert_eq!(h.invoke_command("zenon", 50), vec![Action::ZenonTaunt]);
    assert_eq!(h.invoke_command("strategia", 50), vec![Action::Strategia, Action::DeleteTrigger]);
    assert_eq!(h.invoke_command("s", 50), vec![Action::Strategia, Action::DeleteTrigger]);
}

#[test]
fn wrong_arity_commands_are_silent() {
    let h = Handler::new(ids());
    for input in ["ping x", "stop now", "id 5", "zenon x", "strategia x", "s x", "long", "space"] {
        assert!(h.invoke_command(input, 50).is_empty(), "{input}");
        let text = format!("={input}");
        assert!(h.on_message(&event(Some(1), 50, &text)).is_empty(), "{input}");
    }
    assert!(h.invoke_command("Ping", 50).is_empty());
    assert!(h.invoke_command("unknown", 50).is_empty());
}

#[test]
fn operator_message_is_routed_to_command() {
    let h = Handler::new(ids());
    assert_eq!(h.on_message(&event(Some(1), 50, "=ping")), vec![vec![Action::DeleteTrigger]]);
}

#[test]
fn stop_deletes_then_shuts_down() {
    let h = Handler::new(ids());
    assert_eq!(
        h.on_message(&event(Some(1), 50, "=stop")),
        vec![vec![Action::DeleteTrigger, Action::Shutdown]]
    );
}

#[test]
fn zenon_links() {
    let h = Handler::new(ids());
    assert_eq!(
        h.on_message(&event(Some(2), 50, "look https://x.org and http://y.org")),
        vec![vec![Action::ZenonTaunt]]
    );
    assert_eq!(
        h.on_message(&event(Some(2), 50, "look http://y.org")),
        vec![vec![reply("haha http:// brak szyfrowania noob")]]
    );
}

#[test]
fn crash_corrections() {
    let h = Handler::new(ids());
    assert_eq!(
        h.on_message(&event(Some(3), 50, "Pytaj Mu o to")),
        vec![vec![reply("*zapytaj go")]]
    );
    assert_eq!(
        h.on_message(&event(Some(3), 50, "musisz OBEJRZ to")),
        vec![vec![reply("*obejrzyj")]]
    );
    assert_eq!(
        h.on_message(&event(Some(3), 50, "pytaj mu i obejrz")),
        vec![vec![reply("*zapytaj go"), reply("*obejrzyj")]]
    );
}

#[test]
fn document_sets_off_burst() {
    let h = Handler::new(ids());
    let mut e = event(Some(4), 50, "");
    e.media = vec![Media::Photo, Media::Document];
    assert_eq!(h.on_message(&e), vec![vec![Action::Strategia]]);
    e.media = vec![Media::Photo];
    assert!(h.on_message(&e).is_empty());
}

#[test]
fn channel_forward_gets_retort() {
    let h = Handler::new(ids());
    let mut e = event(None, -1005, "krajobraz");
    e.forward_from = Some(Peer::Channel(-1005));
    assert_eq!(h.on_message(&e), vec![vec![Action::Retort]]);
    e.forward_from = Some(Peer::Channel(-1));
    assert!(h.on_message(&e).is_empty());
    e.forward_from = None;
    assert!(h.on_message(&e).is_empty());
}

#[test]
fn say_in_designated_chat() {
    let h = Handler::new(ids());
    assert_eq!(
        h.on_message(&event(Some(99), -1006, "@JelNiSlaw powiedz hello world")),
        vec![vec![Action::Send("hello world".to_string())]]
    );
    assert_eq!(
        h.on_message(&event(Some(99), -1006, "@JelNiSlaw powiedz  @JelNiSlaw Powiedz x")),
        vec![vec![Action::Send("haha nob jestes".to_string())]]
    );
    assert!(h.on_message(&event(Some(99), -1006, "@JelNiSlaw powiedz   ")).is_empty());
    assert!(h.on_message(&event(Some(99), 50, "@JelNiSlaw powiedz hello")).is_empty());
}

#[test]
fn global_text_rules() {
    let h = Handler::new(ids());
    assert_eq!(
        h.on_message(&event(Some(99), 50, "/prpr@JelNiSlaw")),
        vec![vec![reply("Peropero")]]
    );
    assert!(h.on_message(&event(Some(99), 50, "/prpr@JelNiSlaw ")).is_empty());
    assert_eq!(
        h.on_message(&event(Some(99), 50, "/gptj once upon")),
        vec![vec![Action::Complete("once upon".to_string())]]
    );
}

#[test]
fn sender_and_chat_rules_both_fire() {
    let h = Handler::new(ids());
    assert_eq!(
        h.on_message(&event(Some(2), -1006, "@JelNiSlaw powiedz https://x.org")),
        vec![vec![Action::ZenonTaunt], vec![Action::Send("https://x.org".to_string())]]
    );
}

#[test]
fn missing_sender_uses_chat_identity() {
    let h = Handler::new(ids());
    assert_eq!(h.on_message(&event(None, 2, "http://a")), vec![vec![reply(
        "haha http:// brak szyfrowania noob"
    )]]);
}

#[test]
fn corrections_from_lowered_text() {
    assert_eq!(corrections("pytaj mu"), vec![reply("*zapytaj go")]);
    assert_eq!(corrections("obejrz"), vec![reply("*obejrzyj")]);
    assert_eq!(corrections("pytaj mu obejrz"), vec![reply("*zapytaj go"), reply("*obejrzyj")]);
    assert!(corrections("Pytaj Mu").is_empty());
    assert!(corrections("").is_empty());
}
