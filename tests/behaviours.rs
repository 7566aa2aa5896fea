use rand::rngs::StdRng;
use rand::SeedableRng;
use tg_userbot::commands::{
    polskie_krajobrazy, response_text, say, say_answer, strategia, taunt_text, zenon, zenon_http_noob, Burst,
    BurstStep, RESPONSE_COUNT,
};

fn responses() -> Vec<&'static str> {
    (0..RESPONSE_COUNT).map(response_text).collect()
}

#[test]
fn taunt_text_exact() {
    assert_eq!(
        taunt_text(42, 1, 5),
        "dzięki [Zenon Witkowski](tg://user?id=42) ratio"
    );
    assert_eq!(taunt_text(-7, 0, 0), "dzięki [Zenon](tg://user?id=-7) zamknij ryj");
}

#[test]
fn zenon_taunt_embeds_mention_and_one_phrase() {
    let mut rng = StdRng::seed_from_u64(11);
    for _ in 0..50 {
        let t = zenon(&mut rng, 42);
        let with_short = t.starts_with("dzięki [Zenon](tg://user?id=42) ");
        let with_long = t.starts_with("dzięki [Zenon Witkowski](tg://user?id=42) ");
        assert!(with_short || with_long, "{t}");
        let phrase = t.split_once("(tg://user?id=42) ").unwrap().1;
        assert!(responses().contains(&phrase), "{t}");
    }
}

#[test]
fn insecure_link_jab_is_fixed() {
    assert_eq!(zenon_http_noob(), "haha http:// brak szyfrowania noob");
}

#[test]
fn retort_is_a_canned_response() {
    let mut rng = StdRng::seed_from_u64(3);
    for _ in 0..30 {
        let r = polskie_krajobrazy(&mut rng);
        assert!(responses().contains(&r));
    }
}

#[test]
fn say_repeats_the_rest() {
    assert_eq!(say("@JelNiSlaw powiedz hello world"), Some("hello world".to_string()));
    assert_eq!(say("@JelNiSlaw powiedz    spaced out  "), Some("spaced out".to_string()));
}

#[test]
fn say_refuses_nested_request() {
    assert_eq!(
        say("@JelNiSlaw powiedz @jelnislaw powiedz cokolwiek"),
        Some("haha nob jestes".to_string())
    );
    assert_eq!(
        say("@JelNiSlaw powiedz   @JELNISLAW POWIEDZ x"),
        Some("haha nob jestes".to_string())
    );
}

#[test]
fn say_blank_or_missing_request_sends_nothing() {
    assert_eq!(say("@JelNiSlaw powiedz    "), None);
    assert_eq!(say("@JelNiSlaw powiedz "), None);
    assert_eq!(say("powiedz hello"), None);
    assert_eq!(say("@JelNiSlaw"), None);
}

#[test]
fn burst_first_flip_false_purges_nothing() {
    let b = Burst::new();
    assert_eq!(b.advance(false, 0), BurstStep::Purge(vec![]));
}

#[test]
fn burst_purges_exactly_what_was_sent() {
    let mut b = Burst::new();
    assert_eq!(b.advance(true, 2), BurstStep::Send("strategicznie"));
    b.record_sent(10);
    assert_eq!(b.advance(true, 0), BurstStep::Send("strategia"));
    b.record_sent(11);
    assert_eq!(b.advance(true, 1), BurstStep::Send("strateg"));
    b.record_sent(12);
    assert_eq!(b.advance(false, 0), BurstStep::Purge(vec![10, 11, 12]));
    assert_eq!(b.sent(), vec![10, 11, 12]);
}

#[test]
fn burst_failed_send_still_purges_recorded() {
    let mut b = Burst::new();
    b.record_sent(5);
    assert_eq!(b.abandon(), BurstStep::Purge(vec![5]));
}

#[test]
fn strategia_run_with_seeded_rng() {
    for seed in 0..20 {
        let mut rng = StdRng::seed_from_u64(seed);
        let mut b = Burst::new();
        let mut next_id = 100;
        let mut sent = Vec::new();
        loop {
            match strategia(&b, &mut rng) {
                BurstStep::Send(t) => {
                    assert!(["strategia", "strateg", "strategicznie"].contains(&t));
                    b.record_sent(next_id);
                    sent.push(next_id);
                    next_id += 1;
                }
                BurstStep::Purge(ids) => {
                    assert_eq!(ids, sent);
                    break;
                }
            }
        }
    }
}

#[test]
fn retorts_cover_every_response() {
    let mut rng = StdRng::seed_from_u64(19);
    let mut seen = std::collections::HashSet::new();
    for _ in 0..400 {
        seen.insert(polskie_krajobrazy(&mut rng));
    }
    assert_eq!(seen.len(), RESPONSE_COUNT);
}

#[test]
fn taunts_use_both_name_forms() {
    let mut rng = StdRng::seed_from_u64(23);
    let mut short = 0;
    let mut long = 0;
    for _ in 0..200 {
        let t = zenon(&mut rng, 9);
        if t.starts_with("dzięki [Zenon](") {
            short += 1;
        } else if t.starts_with("dzięki [Zenon Witkowski](") {
            long += 1;
        }
    }
    assert!(short > 0 && long > 0);
    assert_eq!(short + long, 200);
}

#[test]
fn burst_lengths_vary_with_the_coin() {
    let mut lengths = std::collections::HashSet::new();
    for seed in 0..64 {
        let mut rng = StdRng::seed_from_u64(seed);
        let mut b = Burst::new();
        let mut n = 0;
        while let BurstStep::Send(_) = strategia(&b, &mut rng) {
            b.record_sent(n);
            n += 1;
        }
        lengths.insert(n);
    }
    assert!(lengths.contains(&0));
    assert!(lengths.len() >= 3);
}

#[test]
fn say_answer_from_lowered_text() {
    assert_eq!(say_answer("hello", "hello"), Some("hello".to_string()));
    assert_eq!(
        say_answer("@JelNiSlaw Powiedz x", "@jelnislaw powiedz x"),
        Some("haha nob jestes".to_string())
    );
    assert_eq!(say_answer("", ""), None);
}
