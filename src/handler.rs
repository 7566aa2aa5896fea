//! The dispatch table: which rules an inbound message triggers and what
//! each of them asks for.

use crate::action::{actions_view, entry, plan_view, push_entry, Action, ActionView};
use crate::commands::{insecure_link_reply, say, say_prefix, say_reply};
use crate::text::{
    contains, contains_word, decimal, decimal_text, has_infix, has_prefix, has_word, interspace,
    graphemes_of, lower_of, lowercase, same_text, space_free, spaced, split_at_space, split_once_space, strip_prefix,
};
use vstd::prelude::*;

verus! {

/// The accounts and chats that the rules single out.
#[derive(Clone, Copy, Debug, PartialEq, Eq, Structural)]
pub struct Identities {
    /// The account whose `=` commands the bot obeys.
    pub operator: i64,
    /// The account whose links are answered with a taunt.
    pub zenon: i64,
    /// The account whose misspellings are corrected.
    pub crash: i64,
    /// The account whose documents set off a burst of filler messages.
    pub karcewicz: i64,
    /// The channel whose own forwarded posts are answered with a retort.
    pub polskie_krajobrazy: i64,
    /// The chat in which the bot repeats what it is asked to say.
    pub bawialnia: i64,
    /// The chat that receives the error log.
    pub logs: i64,
}

/// Where a forwarded message first appeared.
#[derive(Clone, Copy, Debug, PartialEq, Eq, Structural)]
pub enum Peer {
    User(i64),
    Chat(i64),
    Channel(i64),
}

/// The kind of a media item attached to a message.
#[derive(Clone, Copy, Debug, PartialEq, Eq, Structural)]
pub enum Media {
    Document,
    Photo,
    Other,
}

/// An inbound message.
pub struct Event {
    /// The sending account; absent for posts made in the name of a channel.
    pub sender: Option<i64>,
    /// The chat the message was posted in.
    pub chat: i64,
    /// The message's text, possibly empty.
    pub text: String,
    /// The attached media.
    pub media: Vec<Media>,
    /// Where the message was forwarded from, if it was.
    pub forward_from: Option<Peer>,
}

/// The identity the sender rules go by: the sender, or the chat itself for
/// a post without one.
pub open spec fn effective_sender(e: &Event) -> i64 {
    match e.sender {
        Some(s) => s,
        None => e.chat,
    }
}

/// The actions of operator command `input` (the text after `=`), issued in
/// `chat`. `long` and `space` put one space between each two grapheme
/// clusters of their argument. A name with the wrong number of arguments,
/// or an unknown name, asks for nothing.
pub open spec fn command_actions(input: Seq<char>, chat: int) -> Seq<ActionView> {
    let (name, arg) = split_at_space(input);
    if name == "ping"@ && arg is None {
        seq![ActionView::DeleteTrigger]
    } else if name == "stop"@ && arg is None {
        seq![ActionView::DeleteTrigger, ActionView::Shutdown]
    } else if name == "id"@ && arg is None {
        seq![ActionView::Edit(decimal(chat))]
    } else if (name == "long"@ || name == "space"@) && arg is Some {
        seq![ActionView::Edit(spaced(graphemes_of(arg->0)))]
    } else if name == "zenon"@ && arg is None {
        seq![ActionView::ZenonTaunt]
    } else if (name == "strategia"@ || name == "s"@) && arg is None {
        seq![ActionView::Strategia, ActionView::DeleteTrigger]
    } else {
        Seq::empty()
    }
}

/// The answer to a link: a taunt for `https://`, else a jab for `http://`.
pub open spec fn link_actions(text: Seq<char>) -> Seq<ActionView> {
    if has_infix(text, "https://"@) {
        seq![ActionView::ZenonTaunt]
    } else if has_infix(text, "http://"@) {
        seq![ActionView::Reply(insecure_link_reply())]
    } else {
        Seq::empty()
    }
}

/// The corrections for a lower-cased text.
pub open spec fn correction_actions(lower: Seq<char>) -> Seq<ActionView> {
    (if has_infix(lower, "pytaj mu"@) {
        seq![ActionView::Reply("*zapytaj go"@)]
    } else {
        Seq::empty()
    }) + (if has_word(lower, "obejrz"@) {
        seq![ActionView::Reply("*obejrzyj"@)]
    } else {
        Seq::empty()
    })
}

/// Some attached item is a document.
pub open spec fn has_document(media: Seq<Media>) -> bool {
    exists|i: int| 0 <= i < media.len() && media[i] == Media::Document
}

/// The actions of the sender rules; at most one of them applies, the first
/// whose identity is the effective sender.
pub open spec fn sender_actions(ids: Identities, e: &Event) -> Seq<ActionView> {
    let s = effective_sender(e);
    let t = e.text@;
    if s == ids.operator {
        if has_prefix(t, "="@) {
            command_actions(t.subrange("="@.len() as int, t.len() as int), e.chat as int)
        } else {
            Seq::empty()
        }
    } else if s == ids.zenon {
        link_actions(t)
    } else if s == ids.crash {
        correction_actions(lower_of(t))
    } else if s == ids.karcewicz {
        if has_document(e.media@) {
            seq![ActionView::Strategia]
        } else {
            Seq::empty()
        }
    } else if s == ids.polskie_krajobrazy {
        if e.forward_from == Some(Peer::Channel(ids.polskie_krajobrazy)) {
            seq![ActionView::Retort]
        } else {
            Seq::empty()
        }
    } else {
        Seq::empty()
    }
}

/// The actions of the chat rule: in the designated chat, a request to say
/// something is answered.
pub open spec fn chat_actions(ids: Identities, e: &Event) -> Seq<ActionView> {
    if e.chat == ids.bawialnia {
        match say_reply(e.text@) {
            Some(r) => seq![ActionView::Send(r)],
            None => Seq::empty(),
        }
    } else {
        Seq::empty()
    }
}

/// The actions of the rule on one exact text.
pub open spec fn greeting_actions(text: Seq<char>) -> Seq<ActionView> {
    if text == "/prpr@JelNiSlaw"@ {
        seq![ActionView::Reply("Peropero"@)]
    } else {
        Seq::empty()
    }
}

/// The actions of the rule that asks for a text completion.
pub open spec fn completion_actions(text: Seq<char>) -> Seq<ActionView> {
    if has_prefix(text, "/gptj "@) {
        seq![ActionView::Complete(text.subrange("/gptj "@.len() as int, text.len() as int))]
    } else {
        Seq::empty()
    }
}

/// The plan for message `e`: in order, the entry of the sender rules, of the
/// chat rule, and of the two rules on the text alone; a rule that asks for
/// nothing has no entry.
pub open spec fn plan(ids: Identities, e: &Event) -> Seq<Seq<ActionView>> {
    entry(sender_actions(ids, e)) + entry(chat_actions(ids, e)) + entry(greeting_actions(e.text@))
        + entry(completion_actions(e.text@))
}

/// The matcher of the sender rule that applies to `e`, if any, holds: an
/// operator's text starts with `=`; a link is present; a correction is due;
/// a document is attached; the post was forwarded from the channel itself.
pub open spec fn sender_rule_matches(ids: Identities, e: &Event) -> bool {
    let s = effective_sender(e);
    let t = e.text@;
    if s == ids.operator {
        has_prefix(t, "="@)
    } else if s == ids.zenon {
        has_infix(t, "https://"@) || has_infix(t, "http://"@)
    } else if s == ids.crash {
        has_infix(lower_of(t), "pytaj mu"@) || has_word(lower_of(t), "obejrz"@)
    } else if s == ids.karcewicz {
        has_document(e.media@)
    } else if s == ids.polskie_krajobrazy {
        e.forward_from == Some(Peer::Channel(ids.polskie_krajobrazy))
    } else {
        false
    }
}

/// Some rule's matcher holds for `e`.
pub open spec fn rule_matches(ids: Identities, e: &Event) -> bool {
    ||| sender_rule_matches(ids, e)
    ||| (e.chat == ids.bawialnia && has_prefix(e.text@, say_prefix()))
    ||| e.text@ == "/prpr@JelNiSlaw"@
    ||| has_prefix(e.text@, "/gptj "@)
}

/// A message that no rule matches gets an empty plan, so not a single
/// action, and hence no client call and no log entry, comes of it.
pub proof fn lemma_unmatched_event_is_quiet(ids: Identities, e: &Event)
    requires
        !rule_matches(ids, e),
    ensures
        plan(ids, e) == Seq::<Seq<ActionView>>::empty(),
        plan(ids, e).flatten() == Seq::<ActionView>::empty(),
{
    assert(sender_actions(ids, e) =~= Seq::<ActionView>::empty());
    assert(plan(ids, e) =~= Seq::<Seq<ActionView>>::empty());
}

/// A command name that is known, given with the wrong number of arguments,
/// is silently ignored: the operator's message asks for no action at all.
pub proof fn lemma_wrong_arity_is_silent(ids: Identities, e: &Event)
    requires
        effective_sender(e) == ids.operator,
        has_prefix(e.text@, "="@),
        ({
            let (name, arg) = split_at_space(e.text@.subrange(1, e.text@.len() as int));
            ||| arg is Some && (name == "ping"@ || name == "stop"@ || name == "id"@ || name
                == "zenon"@ || name == "strategia"@ || name == "s"@)
            ||| arg is None && (name == "long"@ || name == "space"@)
        }),
    ensures
        sender_actions(ids, e) == Seq::<ActionView>::empty(),
        entry(sender_actions(ids, e)) == Seq::<Seq<ActionView>>::empty(),
{
    reveal_strlit("=");
    reveal_strlit("ping");
    reveal_strlit("stop");
    reveal_strlit("id");
    reveal_strlit("long");
    reveal_strlit("space");
    reveal_strlit("zenon");
    reveal_strlit("strategia");
    reveal_strlit("s");
    let t = e.text@;
    let input = t.subrange("="@.len() as int, t.len() as int);
    assert(input == t.subrange(1, t.len() as int));
    let (name, arg) = split_at_space(input);
    assert("ping"@[0] != "long"@[0]);
    assert("ping"@[0] != "space"@[0]);
    assert("id"@[0] != "long"@[0]);
    assert("zenon"@[0] != "long"@[0]);
    assert("stop"@[0] != "long"@[0]);
    assert("strategia"@[0] != "long"@[0]);
    assert("s"@[0] != "long"@[0]);
    assert("id"@[0] != "space"@[0]);
    assert("zenon"@[0] != "space"@[0]);
    assert("stop"@.len() != "space"@.len());
    assert("strategia"@.len() != "space"@.len());
    assert("s"@.len() != "space"@.len());
    assert(command_actions(input, e.chat as int) =~= Seq::<ActionView>::empty());
}

/// A link from the designated account: a message with `https://` is
/// answered by exactly one taunt; one with only `http://` by exactly the
/// fixed jab; one with neither by nothing.
pub proof fn lemma_link_reaction(ids: Identities, e: &Event)
    requires
        effective_sender(e) == ids.zenon,
        ids.zenon != ids.operator,
    ensures
        has_infix(e.text@, "https://"@) ==> sender_actions(ids, e) == seq![
            ActionView::ZenonTaunt,
        ],
        !has_infix(e.text@, "https://"@) && has_infix(e.text@, "http://"@) ==> sender_actions(
            ids,
            e,
        ) == seq![ActionView::Reply("haha http:// brak szyfrowania noob"@)],
        !has_infix(e.text@, "https://"@) && !has_infix(e.text@, "http://"@) ==> sender_actions(
            ids,
            e,
        ) == Seq::<ActionView>::empty(),
{
}

/// The operator's `=stop` first deletes the triggering message and then
/// shuts the router down, in that order, before any other rule's action.
pub proof fn lemma_stop_deletes_then_shuts_down(ids: Identities, e: &Event)
    requires
        effective_sender(e) == ids.operator,
        e.text@ == "=stop"@,
    ensures
        plan(ids, e).len() >= 1,
        plan(ids, e)[0] == seq![ActionView::DeleteTrigger, ActionView::Shutdown],
{
    reveal_strlit("=stop");
    reveal_strlit("=");
    reveal_strlit("stop");
    let t = e.text@;
    let input = t.subrange(1, t.len() as int);
    assert(input =~= "stop"@);
    assert(space_free(input));
    reveal_strlit("ping");
    assert("stop"@[1] != "ping"@[1]);
    assert(t.subrange("="@.len() as int, t.len() as int) == input);
    assert(command_actions(input, e.chat as int) == seq![ActionView::DeleteTrigger, ActionView::Shutdown]);
    assert(t.subrange(0, 1) =~= "="@);
    assert(has_prefix(t, "="@));
    assert(sender_actions(ids, e) == seq![ActionView::DeleteTrigger, ActionView::Shutdown]);
}

/// The corrections due for a message whose lower-case text is `lower`.
pub fn corrections(lower: &str) -> (r: Vec<Action>)
    ensures
        actions_view(r@) == correction_actions(lower@),
{
    let mut r: Vec<Action> = Vec::new();
    if contains(lower, "pytaj mu") {
        r.push(Action::Reply(String::from_str("*zapytaj go")));
    }
    if contains_word(lower, "obejrz") {
        r.push(Action::Reply(String::from_str("*obejrzyj")));
    }
    assert(actions_view(r@) =~= correction_actions(lower@));
    r
}

/// The router: it holds the identities that its rules single out.
pub struct Handler {
    pub identities: Identities,
}

fn any_document(media: &Vec<Media>) -> (r: bool)
    ensures
        r == has_document(media@),
{
    let mut i: usize = 0;
    while i < media.len()
        invariant
            i <= media@.len(),
            forall|k: int| 0 <= k < i ==> media@[k] != Media::Document,
        decreases media@.len() - i,
    {
        if media[i] == Media::Document {
            return true;
        }
        i += 1;
    }
    false
}

impl Handler {
    /// A router over the given identities.
    pub fn new(identities: Identities) -> (h: Handler)
        ensures
            h.identities == identities,
    {
        Handler { identities }
    }

    /// The actions of operator command `input`, the text after `=`, issued in
    /// `chat`.
    pub fn invoke_command(&self, input: &str, chat: i64) -> (r: Vec<Action>)
        ensures
            actions_view(r@) == command_actions(input@, chat as int),
    {
        proof {
            reveal_strlit(" ");
        }
        let (name, arg) = split_once_space(input);
        let mut r: Vec<Action> = Vec::new();
        if same_text(name, "ping") && arg.is_none() {
            r.push(Action::DeleteTrigger);
        } else if same_text(name, "stop") && arg.is_none() {
            r.push(Action::DeleteTrigger);
            r.push(Action::Shutdown);
        } else if same_text(name, "id") && arg.is_none() {
            r.push(Action::Edit(decimal_text(chat)));
        } else if (same_text(name, "long") || same_text(name, "space")) && arg.is_some() {
            let message = arg.unwrap();
            r.push(Action::Edit(interspace(message)));
        } else if same_text(name, "zenon") && arg.is_none() {
            r.push(Action::ZenonTaunt);
        } else if (same_text(name, "strategia") || same_text(name, "s")) && arg.is_none() {
            r.push(Action::Strategia);
            r.push(Action::DeleteTrigger);
        }
        assert(actions_view(r@) =~= command_actions(input@, chat as int));
        r
    }

    fn sender_rule(&self, e: &Event) -> (r: Vec<Action>)
        ensures
            actions_view(r@) == sender_actions(self.identities, e),
    {
        let ids = self.identities;
        let s = match e.sender {
            Some(s) => s,
            None => e.chat,
        };
        let t = e.text.as_str();
        let mut r: Vec<Action> = Vec::new();
        if s == ids.operator {
            match strip_prefix(t, "=") {
                Some(input) => {
                    r = self.invoke_command(input, e.chat);
                },
                None => {},
            }
        } else if s == ids.zenon {
            if contains(t, "https://") {
                r.push(Action::ZenonTaunt);
            } else if contains(t, "http://") {
                r.push(Action::Reply(String::from_str(crate::commands::zenon_http_noob())));
            }
        } else if s == ids.crash {
            let lower = lowercase(t);
            r = corrections(lower.as_str());
        } else if s == ids.karcewicz {
            if any_document(&e.media) {
                r.push(Action::Strategia);
            }
        } else if s == ids.polskie_krajobrazy {
            if e.forward_from == Some(Peer::Channel(ids.polskie_krajobrazy)) {
                r.push(Action::Retort);
            }
        }
        assert(actions_view(r@) =~= sender_actions(self.identities, e));
        r
    }

    /// The plan for inbound message `e`: one entry for each rule that asks
    /// for something, in evaluation order.
    pub fn on_message(&self, e: &Event) -> (r: Vec<Vec<Action>>)
        ensures
            plan_view(r@) == plan(self.identities, e),
    {
        let t = e.text.as_str();
        let mut r: Vec<Vec<Action>> = Vec::new();
        assert(plan_view(r@) =~= Seq::<Seq<ActionView>>::empty());
        push_entry(&mut r, self.sender_rule(e));

        let mut said: Vec<Action> = Vec::new();
        if e.chat == self.identities.bawialnia {
            match say(t) {
                Some(reply) => said.push(Action::Send(reply)),
                None => {},
            }
        }
        assert(actions_view(said@) =~= chat_actions(self.identities, e));
        push_entry(&mut r, said);

        let mut greeting: Vec<Action> = Vec::new();
        if same_text(t, "/prpr@JelNiSlaw") {
            greeting.push(Action::Reply(String::from_str("Peropero")));
        }
        assert(actions_view(greeting@) =~= greeting_actions(e.text@));
        push_entry(&mut r, greeting);

        let mut completion: Vec<Action> = Vec::new();
        match strip_prefix(t, "/gptj ") {
            Some(prompt) => completion.push(Action::Complete(String::from_str(prompt))),
            None => {},
        }
        assert(actions_view(completion@) =~= completion_actions(e.text@));
        push_entry(&mut r, completion);
        assert(plan_view(r@) =~= plan(self.identities, e));
        r
    }
}

} // verus!
