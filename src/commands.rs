//! The bot's scripted behaviours: the taunts, the `say` echo and the
//! randomised burst of messages that is sent and then deleted.

use crate::random::{flip_coin, pick_below};
use crate::text::{decimal, decimal_text, has_prefix, lower_of, lowercase, strip_prefix, trim, trimmed};
use rand::rngs::StdRng;
use vstd::prelude::*;

verus! {

/// The number of canned retorts.
pub const RESPONSE_COUNT: usize = 9;

/// The canned retort number `i`.
pub open spec fn response(i: int) -> Seq<char> {
    if i == 0 {
        "zamknij ryj"@
    } else if i == 1 {
        "bądź cicho"@
    } else if i == 2 {
        "cicho bądź"@
    } else if i == 3 {
        "przestań spamić"@
    } else if i == 4 {
        "super materiał (nie)"@
    } else if i == 5 {
        "ratio"@
    } else if i == 6 {
        "kto pytał"@
    } else if i == 7 {
        "nie pytałem"@
    } else {
        "jaki masz program że na każdy kanał wklejasz te treści ?"@
    }
}

/// The canned retort number `i`.
pub fn response_text(i: usize) -> (r: &'static str)
    requires
        i < RESPONSE_COUNT,
    ensures
        r@ == response(i as int),
{
    if i == 0 {
        "zamknij ryj"
    } else if i == 1 {
        "bądź cicho"
    } else if i == 2 {
        "cicho bądź"
    } else if i == 3 {
        "przestań spamić"
    } else if i == 4 {
        "super materiał (nie)"
    } else if i == 5 {
        "ratio"
    } else if i == 6 {
        "kto pytał"
    } else if i == 7 {
        "nie pytałem"
    } else {
        "jaki masz program że na każdy kanał wklejasz te treści ?"
    }
}

/// The two ways of naming the mentioned account.
pub open spec fn mention_name(i: int) -> Seq<char> {
    if i == 0 {
        "Zenon"@
    } else {
        "Zenon Witkowski"@
    }
}

/// The markdown taunt: a link mentioning account `id` under name number
/// `name`, followed by retort number `phrase`.
pub open spec fn taunt(id: int, name: int, phrase: int) -> Seq<char> {
    "dzięki ["@ + mention_name(name) + "](tg://user?id="@ + decimal(id) + ") "@ + response(phrase)
}

/// The taunt for the given choice of name and retort.
pub fn taunt_text(id: i64, name: usize, phrase: usize) -> (r: String)
    requires
        name < 2,
        phrase < RESPONSE_COUNT,
    ensures
        r@ == taunt(id as int, name as int, phrase as int),
{
    let mut r = String::from_str("dzięki [");
    if name == 0 {
        r.append("Zenon");
    } else {
        r.append("Zenon Witkowski");
    }
    r.append("](tg://user?id=");
    let digits = decimal_text(id);
    r.append(digits.as_str());
    r.append(") ");
    r.append(response_text(phrase));
    r
}

/// A taunt mentioning account `id`, with its name form and retort drawn at
/// random.
pub fn zenon(rng: &mut StdRng, id: i64) -> (r: String)
    ensures
        exists|name: int, phrase: int|
            0 <= name < 2 && 0 <= phrase < RESPONSE_COUNT && r@ == taunt(id as int, name, phrase),
{
    let name = pick_below(rng, 2);
    let phrase = pick_below(rng, RESPONSE_COUNT);
    taunt_text(id, name, phrase)
}

/// The reply to a link that uses plain `http://`.
pub open spec fn insecure_link_reply() -> Seq<char> {
    "haha http:// brak szyfrowania noob"@
}

/// The reply to a link that uses plain `http://`.
pub fn zenon_http_noob() -> (r: &'static str)
    ensures
        r@ == insecure_link_reply(),
{
    "haha http:// brak szyfrowania noob"
}

/// A canned retort drawn at random.
pub fn polskie_krajobrazy(rng: &mut StdRng) -> (r: &'static str)
    ensures
        exists|i: int| 0 <= i < RESPONSE_COUNT && r@ == response(i),
{
    response_text(pick_below(rng, RESPONSE_COUNT))
}

/// The words that ask the bot to repeat what follows them.
pub open spec fn say_prefix() -> Seq<char> {
    "@JelNiSlaw powiedz "@
}

/// The same request, lower case and without the trailing space.
pub open spec fn say_loop_prefix() -> Seq<char> {
    "@jelnislaw powiedz"@
}

/// The answer to a request that asks the bot to repeat a request.
pub open spec fn say_refusal() -> Seq<char> {
    "haha nob jestes"@
}

/// The answer to a request whose trimmed rest is `rest`, lower-cased
/// `lower`: the refusal where the rest is itself a request (in any case),
/// nothing where the rest is blank, or else the rest.
pub open spec fn answer_for(rest: Seq<char>, lower: Seq<char>) -> Option<Seq<char>> {
    if has_prefix(lower, say_loop_prefix()) {
        Some(say_refusal())
    } else if rest.len() == 0 {
        None
    } else {
        Some(rest)
    }
}

/// The trimmed text after the request at the start of `text`.
pub open spec fn say_rest(text: Seq<char>) -> Seq<char> {
    trimmed(text.subrange(say_prefix().len() as int, text.len() as int))
}

/// What the bot sends in answer to `text`: nothing unless `text` starts with
/// the request; else the answer for the trimmed rest.
pub open spec fn say_reply(text: Seq<char>) -> Option<Seq<char>> {
    if !has_prefix(text, say_prefix()) {
        None
    } else {
        answer_for(say_rest(text), lower_of(say_rest(text)))
    }
}

/// The answer to a request whose trimmed rest is `rest`, given its
/// lower-case form `lower`.
pub fn say_answer(rest: &str, lower: &str) -> (r: Option<String>)
    ensures
        match r {
            Some(t) => answer_for(rest@, lower@) == Some(t@),
            None => answer_for(rest@, lower@) is None,
        },
{
    if crate::text::starts_with(lower, "@jelnislaw powiedz") {
        Some(String::from_str("haha nob jestes"))
    } else if rest.unicode_len() == 0 {
        None
    } else {
        Some(String::from_str(rest))
    }
}

/// The text to send in answer to a request to repeat `text`, if any. A
/// request whose trimmed rest starts with the request again, in any case,
/// gets the fixed refusal; one whose rest is blank gets nothing.
pub fn say(text: &str) -> (r: Option<String>)
    ensures
        match r {
            Some(t) => say_reply(text@) == Some(t@),
            None => say_reply(text@) is None,
        },
        has_prefix(text@, say_prefix()) && has_prefix(lower_of(say_rest(text@)), say_loop_prefix())
            ==> (r matches Some(t) && t@ == say_refusal()),
        has_prefix(text@, say_prefix()) && say_rest(text@).len() == 0 ==> r is None,
{
    let rest = match strip_prefix(text, "@JelNiSlaw powiedz ") {
        Some(rest) => trim(rest),
        None => return None,
    };
    let lower = lowercase(rest);
    proof {
        reveal_strlit("@jelnislaw powiedz");
    }
    say_answer(rest, lower.as_str())
}

/// The filler text number `i` of a burst.
pub open spec fn filler(i: int) -> Seq<char> {
    if i == 0 {
        "strategia"@
    } else if i == 1 {
        "strateg"@
    } else {
        "strategicznie"@
    }
}

/// The number of filler texts.
pub const FILLER_COUNT: usize = 3;

fn filler_text(i: usize) -> (r: &'static str)
    requires
        i < FILLER_COUNT,
    ensures
        r@ == filler(i as int),
{
    if i == 0 {
        "strategia"
    } else if i == 1 {
        "strateg"
    } else {
        "strategicznie"
    }
}

/// The next thing a burst asks for.
#[derive(Debug, PartialEq, Eq)]
pub enum BurstStep {
    /// Send this text to the chat and report the new message's identifier.
    Send(&'static str),
    /// Delete these messages, in one call, and end the burst.
    Purge(Vec<i32>),
}

/// A burst of filler messages: it records the identifiers of the messages
/// sent so far, in the order in which they were sent.
pub struct Burst {
    sent: Vec<i32>,
}

impl View for Burst {
    type V = Seq<i32>;

    closed spec fn view(&self) -> Seq<i32> {
        self.sent@
    }
}

impl Burst {
    /// A burst that has sent nothing yet.
    pub fn new() -> (b: Burst)
        ensures
            b@ == Seq::<i32>::empty(),
    {
        Burst { sent: Vec::new() }
    }

    /// The identifiers recorded so far, in send order.
    pub fn sent(&self) -> (r: Vec<i32>)
        ensures
            r@ == self@,
    {
        let mut r: Vec<i32> = Vec::new();
        let mut i: usize = 0;
        while i < self.sent.len()
            invariant
                i <= self.sent@.len(),
                r@ == self.sent@.subrange(0, i as int),
            decreases self.sent@.len() - i,
        {
            r.push(self.sent[i]);
            i += 1;
        }
        r
    }

    /// The step that follows a coin flip: another message, with filler text
    /// number `phrase`, while the flip is true; else deletion of every
    /// message sent so far.
    pub fn advance(&self, flip: bool, phrase: usize) -> (r: BurstStep)
        requires
            phrase < FILLER_COUNT,
        ensures
            flip ==> (r matches BurstStep::Send(t) && t@ == filler(phrase as int)),
            !flip ==> (r matches BurstStep::Purge(ids) && ids@ == self@),
    {
        if flip {
            BurstStep::Send(filler_text(phrase))
        } else {
            BurstStep::Purge(self.sent())
        }
    }

    /// Records that a message of the burst was sent with identifier `id`.
    pub fn record_sent(&mut self, id: i32)
        ensures
            final(self)@ == old(self)@.push(id),
    {
        self.sent.push(id);
    }

    /// The deletion that ends a burst whose last send failed: every message
    /// that was sent still goes.
    pub fn abandon(&self) -> (r: BurstStep)
        ensures
            r matches BurstStep::Purge(ids) && ids@ == self@,
    {
        BurstStep::Purge(self.sent())
    }
}

/// The next step of `burst`: a fair coin is flipped, and while it comes up
/// true a filler text is drawn for one more message.
pub fn strategia(burst: &Burst, rng: &mut StdRng) -> (r: BurstStep)
    ensures
        match r {
            BurstStep::Send(t) => exists|i: int| 0 <= i < FILLER_COUNT && t@ == filler(i),
            BurstStep::Purge(ids) => ids@ == burst@,
        },
{
    if flip_coin(rng) {
        let phrase = pick_below(rng, FILLER_COUNT);
        burst.advance(true, phrase)
    } else {
        burst.advance(false, 0)
    }
}

} // verus!
