//! The replies of the built-in command handlers, given what their outside
//! calls returned, and the standard command set.

use rand::Rng;
use vstd::prelude::*;

use crate::commands::{
    last_with_role, lemma_index_of_bounds, CommandTable, CommandTableBuilder, CommandView, HandlerKind, Role,
};
use crate::text::decimal;
use crate::text::decimal_string;
use vstd::string::StringExecFns;

verus! {

/// The reply to `/ip`: the address found, or an apology.
pub fn ip_reply(found: Option<String>) -> (r: String)
    ensures
        found matches Some(ip) ==> r@ == ip@,
        found is None ==> r@ == "Error getting the Ip address"@,
{
    match found {
        Some(ip) => ip,
        None => String::from_str("Error getting the Ip address"),
    }
}

/// The city `/temp` reports on: the argument, or the favourite city when
/// there is none.
pub fn temp_city(args: &str, favourite: &str) -> (r: String)
    ensures
        args@.len() == 0 ==> r@ == favourite@,
        args@.len() > 0 ==> r@ == args@,
{
    if args.is_empty() {
        favourite.to_owned()
    } else {
        args.to_owned()
    }
}

/// The reply to `/temp`: the rendered temperature, or an apology.
pub fn temp_reply(reading: Option<String>) -> (r: String)
    ensures
        reading matches Some(t) ==> r@ == t@,
        reading is None ==> r@ == "Error getting the temp"@,
{
    match reading {
        Some(t) => t,
        None => String::from_str("Error getting the temp"),
    }
}

/// The reply to `/affirm`: the affirmation, or an apology.
pub fn affirm_reply(fetched: Option<String>) -> (r: String)
    ensures
        fetched matches Some(m) ==> r@ == m@,
        fetched is None ==> r@ == "Problem getting the affirmation :("@,
{
    match fetched {
        Some(m) => m,
        None => String::from_str("Problem getting the affirmation :("),
    }
}

/// What became of a request to the language model.
#[derive(Debug)]
pub enum AgentOutcome {
    Answer(String),
    /// The agent exists but the request failed.
    RequestFailed,
    /// No agent could be created (no API key).
    Unavailable,
}

/// The reply to `/ask` and to conversation messages, given the agent's
/// outcome.
pub fn agent_reply(outcome: AgentOutcome) -> (r: String)
    ensures
        outcome matches AgentOutcome::Answer(a) ==> r@ == a@,
        outcome is RequestFailed ==> r@ == "Problem getting the agent response"@,
        outcome is Unavailable ==> r@ == "Could not create the llm agent, check the API key"@,
{
    match outcome {
        AgentOutcome::Answer(a) => a,
        AgentOutcome::RequestFailed => String::from_str("Problem getting the agent response"),
        AgentOutcome::Unavailable => String::from_str(
            "Could not create the llm agent, check the API key",
        ),
    }
}

/// The immediate reply to `/ask` with an empty question; `None` when there
/// is a question to send.
pub fn ask_without_question(request: &str) -> (r: Option<String>)
    ensures
        request@.len() == 0 ==> (r matches Some(t) && t@ == "Ask something!"@),
        request@.len() > 0 ==> r is None,
{
    if request.is_empty() {
        Some(String::from_str("Ask something!"))
    } else {
        None
    }
}

/// The system prompt of a new conversation: the argument of `/chat`, or the
/// default character when there is none.
pub fn chat_prompt(system_prompt: &str) -> (r: String)
    ensures
        system_prompt@.len() > 0 ==> r@ == system_prompt@,
        system_prompt@.len() == 0 ==> r@ == default_prompt(),
{
    if system_prompt.is_empty() {
        String::from_str(
            "You are an intelligent cat named Nami, you will answer all questions briefly, and always maintain your character, and will meow from time to time",
        )
    } else {
        system_prompt.to_owned()
    }
}

pub open spec fn default_prompt() -> Seq<char> {
    "You are an intelligent cat named Nami, you will answer all questions briefly, and always maintain your character, and will meow from time to time"@
}

/// The reply to `/chat`, given whether a new conversation could be started.
pub fn chat_reply(started: bool) -> (r: String)
    ensures
        started ==> r@ == "Let's chat!"@,
        !started ==> r@ == "Error during initializing the chat!"@,
{
    if started {
        String::from_str("Let's chat!")
    } else {
        String::from_str("Error during initializing the chat!")
    }
}

/// The reply to `/endchat`.
pub fn endchat_reply() -> (r: String)
    ensures
        r@ == "See ya!"@,
{
    String::from_str("See ya!")
}

/// Relies on rand's `thread_rng` and `Rng::gen_range`, which returns a value
/// inside the range it is given, here 1 to 6.
#[verifier::external_body]
fn roll_die() -> (r: u64)
    ensures
        1 <= r <= 6,
{
    rand::thread_rng().gen_range(1..=6)
}

/// The reply to `/dice`: one roll of a six-sided die.
pub fn dice() -> (r: String)
    ensures
        exists|n: nat| 1 <= n <= 6 && r@ == #[trigger] decimal(n),
{
    let n = roll_die();
    decimal_string(n)
}

/// The registrations of the standard command set.
pub open spec fn standard_registrations() -> Seq<CommandView> {
    seq![
        ("/ip"@, HandlerKind::Ip, Role::Plain),
        ("/temp"@, HandlerKind::Temp, Role::Plain),
        ("/affirm"@, HandlerKind::Affirm, Role::Plain),
        ("/ask"@, HandlerKind::Ask, Role::Plain),
        ("/chat"@, HandlerKind::Chat, Role::ChatEnter),
        ("/chain"@, HandlerKind::Converse, Role::ConversationDefault),
        ("/endchat"@, HandlerKind::EndChat, Role::ChatExit),
        ("/dice"@, HandlerKind::Dice, Role::Plain),
    ]
}

/// The bot's commands: `/ip`, `/temp`, `/affirm`, `/ask`, `/chat` (enters
/// conversation mode), `/chain` (serves conversation mode), `/endchat`
/// (leaves it) and `/dice`.
pub fn standard_commands() -> (r: CommandTable)
    ensures
        r.wf(),
        r@ == standard_registrations(),
        r.chat_view() == Some(("/chat"@, "/endchat"@, "/chain"@)),
{
    let ghost all = standard_registrations();
    proof {
        reveal_strlit("/ip");
        reveal_strlit("/temp");
        reveal_strlit("/affirm");
        reveal_strlit("/ask");
        reveal_strlit("/chat");
        reveal_strlit("/chain");
        reveal_strlit("/endchat");
        reveal_strlit("/dice");
    }
    let mut b = CommandTableBuilder::new();
    proof {
        lemma_index_of_bounds(b@, "/ip"@);
        assert(b@ =~= all.take(0));
    }
    b.register("/ip", HandlerKind::Ip, Role::Plain);
    proof {
        assert(b@ =~= all.take(1));
        lemma_index_of_bounds(b@, "/temp"@);
        assert("/ip"@.len() == 3 && "/temp"@.len() == 5);
        assert(b@[0].0 != "/temp"@);
    }
    b.register("/temp", HandlerKind::Temp, Role::Plain);
    proof {
        assert(b@ =~= all.take(2));
        lemma_index_of_bounds(b@, "/affirm"@);
        assert("/ip"@.len() == 3 && "/affirm"@.len() == 7);
        assert(b@[0].0 != "/affirm"@);
        assert("/temp"@.len() == 5 && "/affirm"@.len() == 7);
        assert(b@[1].0 != "/affirm"@);
    }
    b.register("/affirm", HandlerKind::Affirm, Role::Plain);
    proof {
        assert(b@ =~= all.take(3));
        lemma_index_of_bounds(b@, "/ask"@);
        assert("/ip"@.len() == 3 && "/ask"@.len() == 4);
        assert(b@[0].0 != "/ask"@);
        assert("/temp"@.len() == 5 && "/ask"@.len() == 4);
        assert(b@[1].0 != "/ask"@);
        assert("/affirm"@.len() == 7 && "/ask"@.len() == 4);
        assert(b@[2].0 != "/ask"@);
    }
    b.register("/ask", HandlerKind::Ask, Role::Plain);
    proof {
        assert(b@ =~= all.take(4));
        lemma_index_of_bounds(b@, "/chat"@);
        assert("/ip"@.len() == 3 && "/chat"@.len() == 5);
        assert(b@[0].0 != "/chat"@);
        assert("/temp"@[1] != "/chat"@[1]);
        assert(b@[1].0 != "/chat"@);
        assert("/affirm"@.len() == 7 && "/chat"@.len() == 5);
        assert(b@[2].0 != "/chat"@);
        assert("/ask"@.len() == 4 && "/chat"@.len() == 5);
        assert(b@[3].0 != "/chat"@);
    }
    b.register("/chat", HandlerKind::Chat, Role::ChatEnter);
    proof {
        assert(b@ =~= all.take(5));
        lemma_index_of_bounds(b@, "/chain"@);
        assert("/ip"@.len() == 3 && "/chain"@.len() == 6);
        assert(b@[0].0 != "/chain"@);
        assert("/temp"@.len() == 5 && "/chain"@.len() == 6);
        assert(b@[1].0 != "/chain"@);
        assert("/affirm"@.len() == 7 && "/chain"@.len() == 6);
        assert(b@[2].0 != "/chain"@);
        assert("/ask"@.len() == 4 && "/chain"@.len() == 6);
        assert(b@[3].0 != "/chain"@);
        assert("/chat"@.len() == 5 && "/chain"@.len() == 6);
        assert(b@[4].0 != "/chain"@);
    }
    b.register("/chain", HandlerKind::Converse, Role::ConversationDefault);
    proof {
        assert(b@ =~= all.take(6));
        lemma_index_of_bounds(b@, "/endchat"@);
        assert("/ip"@.len() == 3 && "/endchat"@.len() == 8);
        assert(b@[0].0 != "/endchat"@);
        assert("/temp"@.len() == 5 && "/endchat"@.len() == 8);
        assert(b@[1].0 != "/endchat"@);
        assert("/affirm"@.len() == 7 && "/endchat"@.len() == 8);
        assert(b@[2].0 != "/endchat"@);
        assert("/ask"@.len() == 4 && "/endchat"@.len() == 8);
        assert(b@[3].0 != "/endchat"@);
        assert("/chat"@.len() == 5 && "/endchat"@.len() == 8);
        assert(b@[4].0 != "/endchat"@);
        assert("/chain"@.len() == 6 && "/endchat"@.len() == 8);
        assert(b@[5].0 != "/endchat"@);
    }
    b.register("/endchat", HandlerKind::EndChat, Role::ChatExit);
    proof {
        assert(b@ =~= all.take(7));
        lemma_index_of_bounds(b@, "/dice"@);
        assert("/ip"@.len() == 3 && "/dice"@.len() == 5);
        assert(b@[0].0 != "/dice"@);
        assert("/temp"@[1] != "/dice"@[1]);
        assert(b@[1].0 != "/dice"@);
        assert("/affirm"@.len() == 7 && "/dice"@.len() == 5);
        assert(b@[2].0 != "/dice"@);
        assert("/ask"@.len() == 4 && "/dice"@.len() == 5);
        assert(b@[3].0 != "/dice"@);
        assert("/chat"@[1] != "/dice"@[1]);
        assert(b@[4].0 != "/dice"@);
        assert("/chain"@.len() == 6 && "/dice"@.len() == 5);
        assert(b@[5].0 != "/dice"@);
        assert("/endchat"@.len() == 8 && "/dice"@.len() == 5);
        assert(b@[6].0 != "/dice"@);
    }
    b.register("/dice", HandlerKind::Dice, Role::Plain);
    assert(b@ =~= all);
    proof {
        reveal_with_fuel(crate::commands::last_with_role, 9);
        assert(last_with_role(all, Role::ChatExit) == Some("/endchat"@));
        assert(last_with_role(all, Role::ConversationDefault) == Some("/chain"@));
        assert(last_with_role(all, Role::ChatEnter) == Some("/chat"@));
    }
    match b.build() {
        Ok(t) => t,
        Err(_) => {
            assert(false);
            CommandTableBuilder::new().build().unwrap()
        },
    }
}

} // verus!
